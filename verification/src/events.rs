//! Exit flags that are shared.
//!
//! An application and its event loop have to agree on whether the
//! application was asked to exit. They hold an [`AppState`] each: states
//! that were made from one another belong to one family and share one flag.
//! The flags themselves stand in an [`ExitFlags`] store, which the caller
//! keeps and hands to every call.

use vstd::prelude::*;

verus! {

/// The exit flags of the families of states, one flag per family, in the
/// order in which the families were made.
pub struct ExitFlags {
    raised: Vec<bool>,
}

impl View for ExitFlags {
    type V = Seq<bool>;

    closed spec fn view(&self) -> Seq<bool> {
        self.raised@
    }
}

/// One handle on the exit flag of a family. It starts lowered, is raised by
/// [`AppState::request_exit`] on any state of the family and is never
/// lowered again.
#[derive(Clone, Copy, Debug, PartialEq, Eq)]
pub struct AppState {
    family: usize,
}

/// Whether the flag of `family` is raised. A family that the store does not
/// hold has no flag raised.
pub open spec fn exit_raised(flags: Seq<bool>, family: nat) -> bool {
    family < flags.len() && flags[family as int]
}

/// The flags after a state of `family` asked for the exit: the flag of the
/// family is raised and every other flag is as it was. Nothing changes for
/// a family that the store does not hold.
pub open spec fn after_request(flags: Seq<bool>, family: nat) -> Seq<bool> {
    if family < flags.len() {
        flags.update(family as int, true)
    } else {
        flags
    }
}

/// The flags after states of the given families asked for the exit, one
/// after the other.
pub open spec fn after_requests(flags: Seq<bool>, families: Seq<nat>) -> Seq<bool>
    decreases families.len(),
{
    if families.len() == 0 {
        flags
    } else {
        after_requests(after_request(flags, families[0]), families.drop_first())
    }
}

impl ExitFlags {
    /// A store without families.
    pub fn new() -> (flags: Self)
        ensures
            flags@ == Seq::<bool>::empty(),
    {
        ExitFlags { raised: Vec::new() }
    }

    /// The number of families.
    pub fn len(&self) -> (count: usize)
        ensures
            count == self@.len(),
    {
        self.raised.len()
    }
}

impl AppState {
    /// The family of this state: its place in the store.
    pub closed spec fn family(&self) -> nat {
        self.family as nat
    }

    /// The first state of a new family, whose flag is lowered. The flags of
    /// the other families stay as they are.
    pub fn new(flags: &mut ExitFlags) -> (state: Self)
        ensures
            state.family() == old(flags)@.len(),
            final(flags)@ == old(flags)@.push(false),
    {
        let family = flags.raised.len();
        flags.raised.push(false);
        AppState { family }
    }

    /// Requests the application to exit: raises the flag of this state's
    /// family, for every state of the family.
    pub fn request_exit(&self, flags: &mut ExitFlags)
        ensures
            final(flags)@ == after_request(old(flags)@, self.family()),
    {
        if self.family < flags.raised.len() {
            flags.raised.set(self.family, true);
        }
    }

    /// Whether exit was requested by a state of this state's family.
    pub fn should_exit(&self, flags: &ExitFlags) -> (b: bool)
        ensures
            b == exit_raised(flags@, self.family()),
    {
        self.family < flags.raised.len() && flags.raised[self.family]
    }

    /// A second state of the same family: it shares the flag with this one.
    pub fn clone_state(&self) -> (state: Self)
        ensures
            state == *self,
            state.family() == self.family(),
    {
        AppState { family: self.family }
    }
}

/// What one request does to every family: afterwards the flag of a family
/// is raised exactly if it was raised before or the request came from a
/// state of that family. No flag is lowered and no family is lost.
pub proof fn lemma_request_step(flags: Seq<bool>, family: nat, other: nat)
    ensures
        after_request(flags, family).len() == flags.len(),
        exit_raised(after_request(flags, family), other) == (exit_raised(flags, other) || (other
            == family && family < flags.len())),
{
}

/// The flag is shared: after a request by any state of a family that the
/// store holds, every state of that family sees the exit, whichever state
/// was made from which and whenever it was made.
pub proof fn lemma_exit_is_shared(flags: Seq<bool>, asking: AppState, seeing: AppState)
    requires
        asking.family() == seeing.family(),
        asking.family() < flags.len(),
    ensures
        exit_raised(after_request(flags, asking.family()), seeing.family()),
        after_request(after_request(flags, asking.family()), asking.family()) == after_request(
            flags,
            asking.family(),
        ),
{
    assert(after_request(after_request(flags, asking.family()), asking.family()) =~= after_request(
        flags,
        asking.family(),
    ));
}

/// A new family starts with its flag lowered and leaves the others alone.
pub proof fn lemma_new_family_is_lowered(flags: Seq<bool>, other: nat)
    ensures
        !exit_raised(flags.push(false), flags.len()),
        other < flags.len() ==> exit_raised(flags.push(false), other) == exit_raised(flags, other),
{
}

/// The exit is seen exactly when it was asked for: after any run of
/// requests, the flag of a family that the store holds is raised exactly if
/// it was raised before or one of the requests came from a state of that
/// family.
pub proof fn lemma_exit_exactly_when_requested(flags: Seq<bool>, families: Seq<nat>, family: nat)
    requires
        family < flags.len(),
    ensures
        after_requests(flags, families).len() == flags.len(),
        exit_raised(after_requests(flags, families), family) == (exit_raised(flags, family)
            || families.contains(family)),
    decreases families.len(),
{
    if families.len() > 0 {
        let rest = families.drop_first();
        lemma_request_step(flags, families[0], family);
        lemma_exit_exactly_when_requested(after_request(flags, families[0]), rest, family);
        if families.contains(family) {
            let at = choose|i: int| 0 <= i < families.len() && families[i] == family;
            if at > 0 {
                assert(rest[at - 1] == family);
            }
        }
        if rest.contains(family) {
            let at = choose|i: int| 0 <= i < rest.len() && rest[i] == family;
            assert(families[at + 1] == family);
        }
    }
}

} // verus!
