//! Greetings: small answers that show that the service is up.
use vstd::prelude::*;
use vstd::string::StringExecFns;
use crate::text::owned;

verus! {

/// The greeting of somebody who gave a name.
pub open spec fn greeting_text(name: Seq<char>) -> Seq<char> {
    "wow nice hello "@ + name + " cool one"@
}

/// Greets the name that a request gave. Without a name there is nobody to
/// greet but a stranger, which is an error.
pub fn greeting(name: Option<&str>) -> (r: Result<String, &'static str>)
    ensures
        match name {
            Some(n) => r matches Ok(text) && text@ == greeting_text(n@),
            None => r matches Err(e) && e@ == "stranger"@,
        },
{
    match name {
        Some(n) => {
            let mut text = owned("wow nice hello ");
            text.append(n);
            text.append(" cool one");
            Ok(text)
        },
        None => Err("stranger"),
    }
}

/// The greeting of an event: of its first name, or of the world where it
/// has none.
pub open spec fn hello_text(first_name: Option<Seq<char>>) -> Seq<char> {
    match first_name {
        Some(name) => "Hello, "@ + name + "!"@,
        None => "Hello, "@ + "world"@ + "!"@,
    }
}

/// Greets the first name of an event, the world where there is none.
pub fn hello_message(first_name: Option<&str>) -> (r: String)
    ensures
        r@ == hello_text(
            match first_name {
                Some(n) => Some(n@),
                None => None,
            },
        ),
{
    let mut text = owned("Hello, ");
    match first_name {
        Some(name) => text.append(name),
        None => text.append("world"),
    }
    text.append("!");
    text
}

} // verus!
