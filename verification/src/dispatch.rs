//! Greetings, reached through static and through dynamic dispatch.

use vstd::prelude::*;
use vstd::string::StringExecFns;
use vstd::string::StringSliceAdditionalSpecFns;

verus! {

/// How every greeting begins.
pub open spec fn salutation() -> Seq<char> {
    "Hello, "@
}

/// Something that can be greeted by name.
pub trait Hello {
    /// The name by which the value is greeted.
    spec fn name(&self) -> Seq<char>;

    /// The greeting: the salutation followed by the name.
    fn hello(&self) -> (greeting: String)
        ensures
            greeting@ == salutation() + self.name(),
    ;
}

impl Hello for &str {
    open spec fn name(&self) -> Seq<char> {
        self@
    }

    fn hello(&self) -> (greeting: String) {
        String::from_str("Hello, ").concat(self)
    }
}

impl Hello for String {
    open spec fn name(&self) -> Seq<char> {
        self@
    }

    fn hello(&self) -> (greeting: String) {
        String::from_str("Hello, ").concat(self.as_str())
    }
}

/// Greets `h`. The call is resolved when the program is compiled, once for
/// each type that it is used with.
pub fn bar(h: impl Hello) -> (greeting: String)
    ensures
        greeting@ == salutation() + h.name(),
{
    h.hello()
}

/// Greets `s`. The call is resolved when the program runs, through the table
/// of methods that comes with the reference.
pub fn say_hello(s: &dyn Hello) -> (greeting: String)
    ensures
        greeting@ == salutation() + s.name(),
{
    s.hello()
}

/// The length of `s` in bytes.
pub fn strlen(s: &str) -> (length: usize)
    ensures
        length == s.spec_bytes().len(),
{
    s.as_bytes().len()
}

/// Greets `"Wow"` through the trait and `"From bar"` through [`bar`].
pub fn tests() -> (greetings: (String, String))
    ensures
        greetings.0@ == "Hello, Wow"@,
        greetings.1@ == "Hello, From bar"@,
{
    let first = "Wow".hello();
    let second = bar("From bar");
    proof {
        reveal_strlit("Hello, ");
        reveal_strlit("Wow");
        reveal_strlit("From bar");
        reveal_strlit("Hello, Wow");
        reveal_strlit("Hello, From bar");
    }
    (first, second)
}

} // verus!
