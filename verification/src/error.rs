//! The structured error type of the binding: a kind, a human-readable
//! message, and the ordered diagnostic stack retrieved from the native
//! engine.  An error value is never mutated after construction.

use vstd::prelude::*;

use crate::status::PvStatus;
use crate::text::spec_decimal;
use crate::text::u64_to_string;

verus! {

/// The kind of a binding failure.
#[derive(Clone, Debug, PartialEq, Eq, Structural)]
pub enum LeopardErrorStatus {
    /// A native call returned the wrapped non-success status.
    LibraryError(PvStatus),
    /// The shared library could not be opened, or a required entry point was
    /// missing from it.
    LibraryLoadError,
    /// The audio sample buffer was empty.
    FrameLengthError,
    /// A caller-supplied argument was invalid: an empty credential, a
    /// nonexistent path, or an unsupported audio file extension.
    ArgumentError,
}

impl LeopardErrorStatus {
    /// The name of this kind, as diagnostics print it.
    pub open spec fn spec_name(self) -> Seq<char> {
        match self {
            LeopardErrorStatus::LibraryError(s) => "LibraryError("@ + s.spec_name() + ")"@,
            LeopardErrorStatus::LibraryLoadError => "LibraryLoadError"@,
            LeopardErrorStatus::FrameLengthError => "FrameLengthError"@,
            LeopardErrorStatus::ArgumentError => "ArgumentError"@,
        }
    }

    /// The name of this kind, as diagnostics print it.
    pub fn name(&self) -> (r: String)
        ensures
            r@ == self.spec_name(),
    {
        match self {
            LeopardErrorStatus::LibraryError(s) => {
                let mut n = String::from_str("LibraryError(");
                n.append(s.name());
                n.append(")");
                proof {
                    assert(n@ =~= self.spec_name());
                }
                n
            },
            LeopardErrorStatus::LibraryLoadError => String::from_str("LibraryLoadError"),
            LeopardErrorStatus::FrameLengthError => String::from_str("FrameLengthError"),
            LeopardErrorStatus::ArgumentError => String::from_str("ArgumentError"),
        }
    }
}

/// A binding failure: its kind, a message, and the diagnostic stack that the
/// native engine reported, in the engine's own order.
#[derive(Clone, Debug)]
pub struct LeopardError {
    pub status: LeopardErrorStatus,
    pub message: String,
    pub message_stack: Vec<String>,
}

/// One line of the rendered diagnostic stack: two spaces, the index in
/// brackets, the message, and a newline.
pub open spec fn spec_stack_line(stack: Seq<Seq<char>>, i: int) -> Seq<char>
    recommends
        0 <= i < stack.len(),
{
    "  ["@ + spec_decimal(i as nat) + "] "@ + stack[i] + "\n"@
}

/// The first `n` lines of the rendered diagnostic stack.
pub open spec fn spec_stack_lines(stack: Seq<Seq<char>>, n: int) -> Seq<char>
    decreases n,
{
    if n <= 0 {
        Seq::empty()
    } else {
        spec_stack_lines(stack, n - 1) + spec_stack_line(stack, n - 1)
    }
}

impl LeopardError {
    /// An error without a diagnostic stack.
    pub fn new(status: LeopardErrorStatus, message: &str) -> (r: Self)
        ensures
            r.status == status,
            r.message@ == message@,
            r.message_stack@ == Seq::<String>::empty(),
    {
        let r = Self { status, message: message.to_owned(), message_stack: Vec::new() };
        proof {
            assert(r.message_stack@ =~= Seq::<String>::empty());
        }
        r
    }

    /// An error carrying the diagnostic stack that the native engine
    /// reported.
    pub fn new_with_stack(
        status: LeopardErrorStatus,
        message: &str,
        message_stack: Vec<String>,
    ) -> (r: Self)
        ensures
            r.status == status,
            r.message@ == message@,
            r.message_stack == message_stack,
    {
        Self { status, message: message.to_owned(), message_stack }
    }

    /// The rendered form of this error: the message, the kind, and, if the
    /// diagnostic stack is not empty, a colon followed by one indexed line
    /// per stack entry.
    pub open spec fn spec_display(&self) -> Seq<char> {
        let head = self.message@ + " with status '"@ + self.status.spec_name() + "'"@;
        if self.message_stack@.len() == 0 {
            head
        } else {
            head + seq![':'] + spec_stack_lines(
                self.message_stack.deep_view(),
                self.message_stack@.len() as int,
            )
        }
    }

    /// Renders this error as one human-readable string.
    pub fn to_display_string(&self) -> (r: String)
        ensures
            r@ == self.spec_display(),
    {
        let mut out = String::new();
        out.append(self.message.as_str());
        out.append(" with status '");
        let status_name = self.status.name();
        out.append(status_name.as_str());
        out.append("'");
        let ghost head = self.message@ + " with status '"@ + self.status.spec_name() + "'"@;
        proof {
            assert(out@ =~= head);
        }
        if self.message_stack.len() != 0 {
            out.append(":");
            proof {
                reveal_strlit(":");
                assert(out@ =~= head + seq![':']);
            }
            let ghost stack = self.message_stack.deep_view();
            let mut i: usize = 0;
            while i < self.message_stack.len()
                invariant
                    stack == self.message_stack.deep_view(),
                    stack.len() == self.message_stack@.len(),
                    0 <= i <= self.message_stack@.len(),
                    out@ == head + seq![':'] + spec_stack_lines(stack, i as int),
                decreases self.message_stack@.len() - i,
            {
                out.append("  [");
                let index = u64_to_string(i as u64);
                out.append(index.as_str());
                out.append("] ");
                out.append(self.message_stack[i].as_str());
                out.append("\n");
                proof {
                    assert(self.message_stack@[i as int]@ == stack[i as int]);
                    assert(out@ =~= head + seq![':'] + spec_stack_lines(stack, i as int)
                        + spec_stack_line(stack, i as int));
                }
                i = i + 1;
            }
            proof {
                assert(out@ =~= self.spec_display());
            }
        }
        out
    }
}

} // verus!
