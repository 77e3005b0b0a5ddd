use vstd::prelude::*;

verus! {

/// The placeholder answer of the inference endpoint to the text `text`.
pub fn inference_reply(text: &str) -> (r: String)
    ensures
        r@ == "Pretend AI response for: "@ + text@,
{
    String::from_str("Pretend AI response for: ").concat(text)
}

} // verus!
