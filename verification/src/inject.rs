//! The text-injection command and its model.
//!
//! An [`Injector`] owns a platform input-injection handle together with a
//! ghost record of every character handed to the connection so far, in order.
//! The contracts state the command's behaviour over that stream: injecting a
//! text appends exactly its characters, an empty text changes nothing and
//! cannot fail, and every fault is reported as an [`InjectError`] rather
//! than aborting.

use vstd::prelude::*;

use crate::backend;

verus! {

/// The two ways a text-injection command can fail.
#[derive(Clone, Copy, Debug, PartialEq, Eq, Structural)]
pub enum InjectError {
    /// No handle to the platform input subsystem could be initialized
    /// (for example, no accessible display).
    HandleInit,
    /// The handle was initialized, but injecting the text as keystrokes
    /// failed.
    Injection,
}

impl InjectError {
    /// A short description of the failure, for reporting to the caller.
    pub fn message(&self) -> (r: &'static str)
        ensures
            *self == InjectError::HandleInit ==> r@ == "the input-injection handle could not be initialized"@,
            *self == InjectError::Injection ==> r@ == "injecting the text as keystrokes failed"@,
    {
        match self {
            InjectError::HandleInit => "the input-injection handle could not be initialized",
            InjectError::Injection => "injecting the text as keystrokes failed",
        }
    }
}

/// A platform input-injection handle, together with the stream of characters
/// submitted over its connection so far.
pub struct Injector {
    handle: enigo::Enigo,
    stream: Ghost<Seq<char>>,
}

impl Injector {
    /// The characters handed to the platform connection so far, in the order
    /// they were submitted. When the platform reported success for each
    /// submission, this is the character sequence the operating system's
    /// input stream observed.
    pub closed spec fn stream(self) -> Seq<char> {
        self.stream@
    }

    /// Acquires a platform input-injection handle with default settings.
    /// An initialization failure is reported as `HandleInit`, never
    /// swallowed; a fresh handle has submitted nothing.
    pub fn new() -> (r: Result<Injector, InjectError>)
        ensures
            r matches Ok(inj) ==> inj.stream() == Seq::<char>::empty(),
            r matches Err(e) ==> e == InjectError::HandleInit,
    {
        match backend::acquire_handle() {
            Ok(h) => Ok(Injector { handle: h, stream: Ghost(Seq::empty()) }),
            Err(_) => Err(InjectError::HandleInit),
        }
    }

    /// Submits `text` to be typed as synthetic keystrokes: exactly the
    /// characters of `text`, in order, are appended to the submitted stream,
    /// with no omission and no reordering. An empty text submits nothing and
    /// cannot fail; an injection failure is reported as `Injection`.
    pub fn inject(&mut self, text: &str) -> (r: Result<(), InjectError>)
        ensures
            final(self).stream() == old(self).stream() + text@,
            text@.len() == 0 ==> final(self).stream() == old(self).stream(),
            text@.len() == 0 ==> r is Ok,
            r matches Err(e) ==> e == InjectError::Injection,
    {
        if text.unicode_len() == 0 {
            proof {
                assert(old(self).stream() + text@ =~= old(self).stream());
            }
            return Ok(());
        }
        let r = backend::submit_text(&mut self.handle, text);
        self.stream = Ghost(self.stream@ + text@);
        match r {
            Ok(u) => Ok(u),
            Err(_) => Err(InjectError::Injection),
        }
    }
}

/// The text-injection command: acquire a handle with default settings,
/// submit `text` to be typed, and release the handle. An empty text asks for
/// no keystrokes, so it succeeds without touching the platform; any fault is
/// reported as the error of the step that failed.
pub fn type_text(text: &str) -> (r: Result<(), InjectError>)
    ensures
        text@.len() == 0 ==> r is Ok,
        r matches Err(e) ==> (e == InjectError::HandleInit || e == InjectError::Injection),
{
    if text.unicode_len() == 0 {
        return Ok(());
    }
    let mut injector = match Injector::new() {
        Ok(i) => i,
        Err(e) => {
            return Err(e);
        },
    };
    injector.inject(text)
}

/// Law: one submission appends exactly the characters of the text. In the
/// stream after the call, what stood before is unchanged, and the new
/// segment is the text itself, in order, with no omission or reordering.
pub proof fn lemma_injection_appends_exactly(s: Seq<char>, t: Seq<char>)
    ensures
        (s + t).len() == s.len() + t.len(),
        (s + t).subrange(0, s.len() as int) == s,
        (s + t).subrange(s.len() as int, (s.len() + t.len()) as int) == t,
{
    assert((s + t).subrange(0, s.len() as int) =~= s);
    assert((s + t).subrange(s.len() as int, (s.len() + t.len()) as int) =~= t);
}

/// Law: two submissions in sequence place the first text's characters and
/// then the second's contiguously in the stream, with no interleaving: the
/// stream after both calls is the old stream, then the first text, then the
/// second.
pub proof fn lemma_sequential_injections(s: Seq<char>, a: Seq<char>, b: Seq<char>)
    ensures
        (s + a) + b == s + (a + b),
        ((s + a) + b).subrange(s.len() as int, (s.len() + a.len()) as int) == a,
        ((s + a) + b).subrange(
            (s.len() + a.len()) as int,
            (s.len() + a.len() + b.len()) as int,
        ) == b,
{
    assert((s + a) + b =~= s + (a + b));
    assert(((s + a) + b).subrange(s.len() as int, (s.len() + a.len()) as int) =~= a);
    assert(((s + a) + b).subrange(
        (s.len() + a.len()) as int,
        (s.len() + a.len() + b.len()) as int,
    ) =~= b);
}

} // verus!
