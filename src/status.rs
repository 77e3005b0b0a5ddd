use vstd::prelude::*;

verus! {

/// The JSON object `{"message":"<m>"}`, with `m` written as it stands.
pub open spec fn json_message(m: Seq<char>) -> Seq<char> {
    "{\"message\":\""@ + m + "\"}"@
}

/// A status report: a message that the server hands to every generic request.
pub struct Status {
    message: String,
}

impl View for Status {
    type V = Seq<char>;

    closed spec fn view(&self) -> Seq<char> {
        self.message@
    }
}

impl Status {
    /// A status carrying the message `msg`.
    pub fn new(msg: &str) -> (r: Status)
        ensures
            r@ == msg@,
    {
        Status { message: msg.to_string() }
    }

    /// The status as the JSON object `{"message":"..."}`.
    pub fn to_json(&self) -> (r: String)
        ensures
            r@ == json_message(self@),
    {
        let r = String::from_str("{\"message\":\"").concat(self.message.as_str()).concat("\"}");
        r
    }
}

} // verus!
