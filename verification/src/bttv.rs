//! URL and file-name derivation for emotes of the second provider, given a
//! textual id.

use vstd::prelude::*;

verus! {

/// The download URL of the emote with the given textual id.
pub fn make_url_webp(id: &str) -> (r: String)
    ensures
        r@ == "https://cdn.betterttv.net/emote/"@ + id@ + "/3x.webp"@,
{
    let mut s = String::new();
    s.append("https://cdn.betterttv.net/emote/");
    s.append(id);
    s.append("/3x.webp");
    proof {
        assert(s@ =~= "https://cdn.betterttv.net/emote/"@ + id@ + "/3x.webp"@);
    }
    s
}

/// The canonical on-disk file name of the emote with the given textual id.
pub fn make_file_name_webp(id: &str) -> (r: String)
    ensures
        r@ == id@ + ".webp"@,
{
    let mut s = String::new();
    s.append(id);
    s.append(".webp");
    proof {
        assert(s@ =~= id@ + ".webp"@);
    }
    s
}

} // verus!
