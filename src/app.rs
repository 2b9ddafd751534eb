use vstd::prelude::*;

verus! {

/// The heading shown above the editor.
pub fn app() -> (r: String)
    ensures
        r@ == "pix - a pixel editor"@,
{
    proof {
        reveal_strlit("pix - a pixel editor");
    }
    "pix - a pixel editor".to_owned()
}

} // verus!
