//! The directory of block explorers: a fixed table from chain identifier to
//! the address of a human-facing explorer.

use crate::text::{lowercase_of, str_equals, strip_spaces, to_lowercase, without_spaces};
use vstd::prelude::*;

verus! {

/// Whether the directory has an entry for an identifier.
pub open spec fn is_listed(id: Seq<char>) -> bool {
    ||| id == "aptos"@
    ||| id == "sui"@
    ||| id == "sei-network"@
    ||| id == "ethereum"@
    ||| id == "arbitrum"@
    ||| id == "optimism"@
    ||| id == "zksyncera"@
    ||| id == "base"@
}

/// The explorer address that the directory holds for an identifier, and the
/// empty text for an identifier that it does not list.
pub open spec fn explorer_url_of(id: Seq<char>) -> Seq<char> {
    if id == "aptos"@ {
        "https://explorer.aptoslabs.com"@
    } else if id == "sui"@ {
        "https://suiscan.xyz/mainnet"@
    } else if id == "sei-network"@ {
        "https://www.seiscan.app"@
    } else if id == "ethereum"@ {
        "https://etherscan.io"@
    } else if id == "arbitrum"@ {
        "https://arbiscan.io"@
    } else if id == "optimism"@ {
        "https://optimistic.etherscan.io"@
    } else if id == "zksyncera"@ {
        "https://explorer.zksync.io"@
    } else if id == "base"@ {
        "https://basescan.org"@
    } else {
        Seq::empty()
    }
}

/// Looks an identifier up in the directory. An identifier that is not
/// listed gets the empty text; that is no failure.
pub fn get_explorer_url(id: &str) -> (url: String)
    ensures
        url@ == explorer_url_of(id@),
        is_listed(id@) <==> url@.len() > 0,
{
    proof {
        lemma_directory_is_total(id@);
    }
    if str_equals(id, "aptos") {
        "https://explorer.aptoslabs.com".to_owned()
    } else if str_equals(id, "sui") {
        "https://suiscan.xyz/mainnet".to_owned()
    } else if str_equals(id, "sei-network") {
        "https://www.seiscan.app".to_owned()
    } else if str_equals(id, "ethereum") {
        "https://etherscan.io".to_owned()
    } else if str_equals(id, "arbitrum") {
        "https://arbiscan.io".to_owned()
    } else if str_equals(id, "optimism") {
        "https://optimistic.etherscan.io".to_owned()
    } else if str_equals(id, "zksyncera") {
        "https://explorer.zksync.io".to_owned()
    } else if str_equals(id, "base") {
        "https://basescan.org".to_owned()
    } else {
        String::new()
    }
}

/// The directory answers with the empty text for every identifier outside
/// its table, and with a text that is not empty for every identifier in it:
/// `aptos`, `sui`, `sei-network`, `ethereum`, `arbitrum`, `optimism`,
/// `zksyncera` and `base`.
pub proof fn lemma_directory_is_total(id: Seq<char>)
    ensures
        !is_listed(id) ==> explorer_url_of(id) == Seq::<char>::empty(),
        is_listed(id) ==> explorer_url_of(id).len() > 0,
        explorer_url_of("aptos"@).len() > 0,
        explorer_url_of("sui"@).len() > 0,
        explorer_url_of("sei-network"@).len() > 0,
        explorer_url_of("ethereum"@).len() > 0,
        explorer_url_of("arbitrum"@).len() > 0,
        explorer_url_of("optimism"@).len() > 0,
        explorer_url_of("zksyncera"@).len() > 0,
        explorer_url_of("base"@).len() > 0,
{
    reveal_strlit("https://explorer.aptoslabs.com");
    reveal_strlit("https://suiscan.xyz/mainnet");
    reveal_strlit("https://www.seiscan.app");
    reveal_strlit("https://etherscan.io");
    reveal_strlit("https://arbiscan.io");
    reveal_strlit("https://optimistic.etherscan.io");
    reveal_strlit("https://explorer.zksync.io");
    reveal_strlit("https://basescan.org");
}

/// The identifier under which a protocol is looked up in the directory: its
/// name in lower case with the spaces taken out.
pub open spec fn explorer_key_of(name: Seq<char>) -> Seq<char> {
    without_spaces(lowercase_of(name))
}

/// Derives the directory identifier of a protocol from its name.
pub fn explorer_key(name: &str) -> (key: String)
    ensures
        key@ == explorer_key_of(name@),
{
    let lower = to_lowercase(name);
    strip_spaces(lower.as_str())
}

} // verus!
