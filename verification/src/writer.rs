//! A text sink that asks for leave before it grows.
use std::fmt;

use vstd::prelude::*;

use crate::error::{Error, ErrorKind, ErrorView};

verus! {

/// `std::fmt::Error`: a struct without fields, so it has one value and nothing is hidden.
#[verifier::external_type_specification]
pub struct ExFmtError(std::fmt::Error);

/// `String::with_capacity` returns an empty string. It panics on a capacity of more than
/// `isize::MAX` bytes, so that is left out. How much room it reserves is not said.
pub assume_specification[ String::with_capacity ](capacity: usize) -> (text: String)
    requires
        capacity <= isize::MAX,
    ensures
        text@ == Seq::<char>::empty(),
;

/// The number of bytes that `text` takes in UTF-8.
pub open spec fn byte_len(text: Seq<char>) -> nat {
    vstd::utf8::encode_utf8(text).len()
}

/// The number of bytes that `text` takes, as far as a `usize` can tell it.
pub open spec fn text_size(text: Seq<char>) -> usize {
    if byte_len(text) > usize::MAX {
        usize::MAX
    } else {
        byte_len(text) as usize
    }
}

/// Whether `check` has granted the size of `text`. No text needs no leave.
pub open spec fn approved<F: Fn(usize) -> Result<(), Error>>(check: F, text: Seq<char>) -> bool {
    text.len() == 0 || exists|verdict: Result<(), Error>|
        verdict is Ok && #[trigger] call_ensures(check, (text_size(text),), verdict)
}

/// What a failed format ends in where no size check has stopped it.
pub open spec fn format_failure() -> ErrorView {
    ErrorView { kind: ErrorKind::InvalidOperation, detail: "failed to format value"@ }
}

/// Callback used by the size-checked helpers to test a prospective allocation.
pub type SizeCheck<'a, F> = &'a F;

/// What a [`BudgetWriter`] holds: the text so far, and the error of the last write that
/// was stopped, unless that has been taken.
pub struct WriterView {
    pub text: Seq<char>,
    pub failure: Option<Error>,
}

impl WriterView {
    /// A writer that nothing has been written to.
    pub open spec fn empty() -> WriterView {
        WriterView { text: Seq::empty(), failure: None }
    }

    /// The writer after a write of `piece` that the check answered with `verdict`.
    pub open spec fn after(self, piece: Seq<char>, verdict: Result<(), Error>) -> WriterView {
        match verdict {
            Ok(()) => WriterView { text: self.text + piece, failure: self.failure },
            Err(error) => WriterView { text: self.text, failure: Some(error) },
        }
    }
}

/// A [`fmt::Write`] sink that checks its accumulated length as it grows.
///
/// Used where an output's final size cannot be computed up front, so the write aborts
/// partway instead of materializing the whole thing and failing afterwards.  `fmt::Write`
/// can only report a unit error, so the real error is stashed and recovered by
/// [`finish`](Self::finish).
///
/// At any time, the size of the text it holds has been granted by its check.
pub struct BudgetWriter<'a, F: Fn(usize) -> Result<(), Error>> {
    buf: String,
    check: SizeCheck<'a, F>,
    err: Option<Error>,
}

impl<'a, F: Fn(usize) -> Result<(), Error>> View for BudgetWriter<'a, F> {
    type V = WriterView;

    closed spec fn view(&self) -> WriterView {
        WriterView { text: self.buf@, failure: self.err }
    }
}

impl<'a, F: Fn(usize) -> Result<(), Error>> BudgetWriter<'a, F> {
    #[verifier::type_invariant]
    spec fn inv(self) -> bool {
        &&& forall|size: usize| call_requires(*self.check, (size,))
        &&& approved(*self.check, self.buf@)
    }

    /// The check that the writer asks.
    pub closed spec fn size_check(self) -> F {
        *self.check
    }

    /// Creates a writer that is held to `check`.
    pub fn new(check: SizeCheck<'a, F>) -> (writer: BudgetWriter<'a, F>)
        requires
            forall|size: usize| call_requires(*check, (size,)),
        ensures
            writer@ == WriterView::empty(),
            writer.size_check() == *check,
    {
        BudgetWriter { buf: String::new(), check, err: None }
    }

    /// Creates a writer that is held to `check` and starts with room for `cap` bytes.
    ///
    /// The room is not asked for: the check is first consulted on the first write.
    pub fn with_capacity(cap: usize, check: SizeCheck<'a, F>) -> (writer: BudgetWriter<'a, F>)
        requires
            cap <= isize::MAX,
            forall|size: usize| call_requires(*check, (size,)),
        ensures
            writer@ == WriterView::empty(),
            writer.size_check() == *check,
    {
        BudgetWriter { buf: String::with_capacity(cap), check, err: None }
    }

    /// Returns the accumulated string, or the budget error that stopped it.
    pub fn finish(self, rv: fmt::Result) -> (res: Result<String, Error>)
        ensures
            match rv {
                Ok(()) => res is Ok && res->Ok_0@ == self@.text,
                Err(_) => res is Err && match self@.failure {
                    Some(error) => res->Err_0 == error,
                    None => res->Err_0@ == format_failure(),
                },
            },
            res matches Ok(text) ==> approved(self.size_check(), text@),
    {
        proof {
            use_type_invariant(&self);
        }
        match rv {
            Ok(()) => Ok(self.buf),
            Err(_) => match self.err {
                Some(error) => Err(error),
                None => Err(Error::new(ErrorKind::InvalidOperation, "failed to format value")),
            },
        }
    }

    /// Replaces `err` with the budget error, if one stopped a write.
    ///
    /// `fmt::Write` can only report a unit error, so a caller that routes its
    /// own `Result` through this writer recovers the real cause here.
    pub fn take_err(&mut self, err: Error) -> (res: Error)
        ensures
            res == old(self)@.failure.unwrap_or(err),
            final(self)@ == (WriterView { text: old(self)@.text, failure: None }),
            final(self).size_check() == old(self).size_check(),
    {
        proof {
            use_type_invariant(&*self);
        }
        let mut taken: Option<Error> = None;
        std::mem::swap(&mut taken, &mut self.err);
        taken.unwrap_or(err)
    }

    /// Consumes the writer and returns what was written.
    pub fn into_string(self) -> (text: String)
        ensures
            text@ == self@.text,
            approved(self.size_check(), text@),
    {
        proof {
            use_type_invariant(&self);
        }
        self.buf
    }
}

impl<'a, F: Fn(usize) -> Result<(), Error>> fmt::Write for BudgetWriter<'a, F> {
    /// Appends `s` if the check grants the length that the text would then have.
    fn write_str(&mut self, s: &str) -> (res: fmt::Result)
        ensures
            exists|verdict: Result<(), Error>| #[trigger]
                call_ensures(
                    old(self).size_check(),
                    (text_size(old(self)@.text + s@),),
                    verdict,
                ) && final(self)@ == old(self)@.after(s@, verdict) && (res is Ok <==> verdict
                    is Ok),
            final(self).size_check() == old(self).size_check(),
            res is Ok ==> final(self)@.text == old(self)@.text + s@,
            res is Ok ==> final(self)@.failure == old(self)@.failure,
            res is Err ==> final(self)@.text == old(self)@.text,
            res is Err ==> final(self)@.failure is Some,
            vstd::utf8::encode_utf8(old(self)@.text + s@).len() <= usize::MAX ==> exists|
                size: usize,
                verdict: Result<(), Error>,
            | #[trigger]
                call_ensures(old(self).size_check(), (size,), verdict) && size
                    == vstd::utf8::encode_utf8(old(self)@.text + s@).len() && (res is Ok <==> verdict
                    is Ok) && (verdict matches Err(error) ==> final(self)@.failure == Some(error)),
    {
        proof {
            use_type_invariant(&*self);
            lemma_encode_concat(self.buf@, s@);
        }
        let size: usize = self.buf.as_str().as_bytes().len().saturating_add(s.as_bytes().len());
        let verdict = (self.check)(size);
        assert(call_ensures(old(self).size_check(), (text_size(old(self)@.text + s@),), verdict));
        match verdict {
            Ok(()) => {
                let mut buf: String = String::new();
                std::mem::swap(&mut buf, &mut self.buf);
                buf.append(s);
                self.buf = buf;
                Ok(())
            },
            Err(err) => {
                self.err = Some(err);
                Err(fmt::Error)
            },
        }
    }
}

/// UTF-8 encodes a text piece by piece.
pub proof fn lemma_encode_concat(a: Seq<char>, b: Seq<char>)
    ensures
        vstd::utf8::encode_utf8(a + b) == vstd::utf8::encode_utf8(a) + vstd::utf8::encode_utf8(b),
    decreases a.len(),
{
    if a.len() > 0 {
        lemma_encode_concat(a.drop_first(), b);
        assert((a + b).drop_first() =~= a.drop_first() + b);
    }
}

} // verus!
