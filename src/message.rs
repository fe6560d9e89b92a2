use vstd::prelude::*;

use crate::ai_functions::{instruction_of, Shaper};
use crate::text::{owned, push_text};

verus! {

/// Who a message comes from.
#[derive(Clone, Copy, Debug, PartialEq, Eq, Structural)]
pub enum Role {
    System,
    User,
}

impl Role {
    /// The wire name of the role.
    pub fn as_str(&self) -> (r: &'static str)
        ensures
            r@ == role_name(*self),
    {
        match self {
            Role::System => "system",
            Role::User => "user",
        }
    }
}

pub open spec fn role_name(r: Role) -> Seq<char> {
    match r {
        Role::System => "system"@,
        Role::User => "user"@,
    }
}

/// A role-tagged message: the unit of exchange with the completion gateway.
#[derive(Clone, Debug)]
pub struct Message {
    pub role: Role,
    pub content: String,
}

impl Message {
    /// A copy of this message.
    pub fn duplicate(&self) -> (r: Message)
        ensures
            r == *self,
    {
        Message { role: self.role, content: self.content.clone() }
    }
}

/// Text placed between the rendered instruction and the input.
pub open spec fn directive_head() -> Seq<char> {
    "\n      INSTRUCTION: You are a function pointer. You ONLY print the results of functions.\n      Nothing else. No commentary. Here is the input to the function "@
}

/// Text placed after the input.
pub open spec fn directive_tail() -> Seq<char> {
    ",\n      Print out what the function will return."@
}

/// The content of the extended message for a shaping function and an input.
pub open spec fn extended_content(s: Shaper, input: Seq<char>) -> Seq<char> {
    "FUNCTION: "@ + instruction_of(s) + directive_head() + input + directive_tail()
}

/// Wraps `func_input` with the instruction of `ai_func` and the fixed
/// directive, as one system message.
pub fn extend_ai_function(ai_func: Shaper, func_input: &str) -> (r: Message)
    ensures
        r.role == Role::System,
        r.content@ == extended_content(ai_func, func_input@),
{
    let ai_function_str = ai_func.render(func_input);
    let mut msg = owned("FUNCTION: ");
    push_text(&mut msg, ai_function_str);
    push_text(
        &mut msg,
        "\n      INSTRUCTION: You are a function pointer. You ONLY print the results of functions.\n      Nothing else. No commentary. Here is the input to the function ",
    );
    push_text(&mut msg, func_input);
    push_text(&mut msg, ",\n      Print out what the function will return.");
    Message { role: Role::System, content: msg }
}

/// The extended message holds the rendered instruction and the input
/// verbatim, and it comes from the system.
pub proof fn lemma_extended_message_holds_parts(s: Shaper, input: Seq<char>)
    ensures
        ({
            let c = extended_content(s, input);
            let a: int = (10 + instruction_of(s).len() + directive_head().len()) as int;
            &&& c.subrange(10, 10 + instruction_of(s).len() as int) == instruction_of(s)
            &&& c.subrange(a, a + input.len()) == input
        }),
{
    reveal_strlit("FUNCTION: ");
    let c = extended_content(s, input);
    let a: int = (10 + instruction_of(s).len() + directive_head().len()) as int;
    assert(c.subrange(10, 10 + instruction_of(s).len() as int) =~= instruction_of(s));
    assert(c.subrange(a, a + input.len()) =~= input);
}

} // verus!
