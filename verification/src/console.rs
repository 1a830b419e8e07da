//! Printing through a writer that a spin lock guards.

use vstd::prelude::*;
use spin::Mutex;
use spin::MutexGuard;
use vstd::string::StringSliceAdditionalSpecFns;
use crate::writer::Writer;

verus! {

/// `spin::Mutex`, a lock that spins. What it guards cannot be seen from
/// outside the lock; nothing is claimed of it.
#[verifier::external_type_specification]
#[verifier::external_body]
#[verifier::reject_recursive_types(T)]
pub struct ExMutex<T: ?Sized>(Mutex<T>);

/// `spin::MutexGuard`, which holds the lock and releases it when it is
/// dropped.
#[verifier::external_type_specification]
#[verifier::external_body]
#[verifier::reject_recursive_types(T)]
pub struct ExMutexGuard<'a, T: ?Sized + 'a>(MutexGuard<'a, T>);

/// `Mutex::try_lock`: takes the lock if it is free and hands back its guard,
/// and hands back `None` if the lock is held. It tries once, so it neither
/// waits nor panics. Which of the two comes back depends on who holds the
/// lock, so nothing is claimed of it.
#[verifier::external_body]
fn try_lock<'a>(console: &'a Mutex<Writer>) -> (guard: Option<MutexGuard<'a, Writer>>) {
    console.try_lock()
}

/// `DerefMut::deref_mut` of the guard: the writer that the lock protects, for
/// as long as the guard is borrowed. The writer may be in any state that a
/// writer can be in, so nothing is claimed of it.
#[verifier::external_body]
fn locked_writer<'a, 'b>(guard: &'a mut MutexGuard<'b, Writer>) -> (writer: &'a mut Writer) {
    core::ops::DerefMut::deref_mut(guard)
}

/// Appends a text to the writer behind the lock, if the lock is free, and
/// tells whether it did; the lock is released on return. It tries the lock
/// once and never waits. What is written and returned is `print_to`'s.
pub fn _print(console: &Mutex<Writer>, text: &str) -> (written: bool) {
    let mut guard = try_lock(console);
    let writer = match &mut guard {
        Some(guard) => Some(locked_writer(guard)),
        None => None,
    };
    print_to(writer, text)
}

/// What `_print` does with what the lock handed out. Where there is a
/// writer, the text is appended to it and the result is `true`. Where there
/// is none, nothing is written and the result is `false`.
pub fn print_to(writer: Option<&mut Writer>, text: &str) -> (written: bool)
    ensures
        written == writer is Some,
        match writer {
            Some(writer) => {
                &&& final(writer)@ == writer@.append_text(text.spec_bytes())
                &&& final(writer)@.wf()
            },
            None => true,
        },
{
    match writer {
        Some(writer) => {
            writer.write_string(text);
            true
        },
        None => false,
    }
}

} // verus!
