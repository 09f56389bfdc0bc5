use vstd::prelude::*;
use crate::config::Config;
use crate::descriptor::{DescriptorView, SombraWindows};
use crate::error::{error_with, ErrorKind, ErrorView};
use crate::lifecycle::{
    begin_create_spec, begin_delete_spec, remaining, transition_spec, ActionView, EventView,
    RunState, TransitionView,
};

verus! {

/// A model of the host, as far as the create and delete sequences see it:
/// the service entries registered by name with their state, and the file
/// system as a map from a path to its canonical form (paths that do not
/// resolve are absent).
pub struct HostModel {
    pub services: Map<Seq<char>, RunState>,
    pub files: Map<Seq<char>, Seq<char>>,
}

/// How a well-behaved host answers `a`, made in a sequence about the service
/// `name`: a name is registered at most once, an entry that is not there
/// cannot be opened, started, stopped or deleted, and nothing fails beyond
/// that.
pub open spec fn reply(h: HostModel, name: Seq<char>, a: ActionView) -> (HostModel, EventView) {
    let missing = (h, EventView::Failed(Seq::empty()));
    match a {
        ActionView::Connect(_) => (h, EventView::Done),
        ActionView::ResolveHelper(p) => if h.files.contains_key(p) {
            (h, EventView::Resolved(Ok(h.files[p])))
        } else {
            (h, EventView::Resolved(Err(error_with(ErrorKind::Io, Seq::empty(), p))))
        },
        ActionView::Register(reg, _) => if h.services.contains_key(reg.name) {
            (h, EventView::Failed(Seq::empty()))
        } else {
            (HostModel { services: h.services.insert(reg.name, RunState::Stopped), ..h }, EventView::Done)
        },
        ActionView::Open(n, _) => if h.services.contains_key(n) {
            (h, EventView::Done)
        } else {
            missing
        },
        ActionView::Describe(_) | ActionView::Wait(_) => (h, EventView::Done),
        ActionView::Start(_) => if h.services.contains_key(name) {
            (HostModel { services: h.services.insert(name, RunState::Running), ..h }, EventView::Done)
        } else {
            missing
        },
        ActionView::QueryStatus => if h.services.contains_key(name) {
            (h, EventView::Status(h.services[name]))
        } else {
            missing
        },
        ActionView::Stop => if h.services.contains_key(name) {
            (HostModel { services: h.services.insert(name, RunState::Stopped), ..h }, EventView::Done)
        } else {
            missing
        },
        ActionView::Remove => if h.services.contains_key(name) {
            (HostModel { services: h.services.remove(name), ..h }, EventView::Done)
        } else {
            missing
        },
    }
}

pub open spec fn steps_left(t: TransitionView) -> nat {
    match t {
        TransitionView::Next(p, _) => remaining(p) + 1,
        TransitionView::Finished(_) => 0,
    }
}

/// The result and the final host when the sequence for `d` goes on from `t`
/// against `h`, each request answered as `reply` says.
pub open spec fn run(d: DescriptorView, helper: Seq<char>, h: HostModel, t: TransitionView) -> (
    Result<(), ErrorView>,
    HostModel,
)
    decreases steps_left(t),
{
    match t {
        TransitionView::Finished(r) => (r, h),
        TransitionView::Next(p, a) => {
            let (h2, ev) = reply(h, d.name, a);
            run(d, helper, h2, transition_spec(d, helper, p, ev))
        },
    }
}

/// What `create` does to `h` for the descriptor `d` under `config`.
pub open spec fn create_outcome(d: SombraWindows, config: Config, h: HostModel) -> (
    Result<(), ErrorView>,
    HostModel,
) {
    run(d@, config.helper_spec(), h, begin_create_spec())
}

/// What `delete` does to `h` for the descriptor `d` under `config`.
pub open spec fn delete_outcome(d: SombraWindows, config: Config, h: HostModel) -> (
    Result<(), ErrorView>,
    HostModel,
) {
    run(d@, config.helper_spec(), h, begin_delete_spec())
}

/// Creating a service succeeds exactly when the helper resolves and the name
/// is free; it then leaves the service registered and running, and otherwise
/// leaves the host as it was.
pub proof fn lemma_create_outcome(d: SombraWindows, config: Config, h: HostModel)
    ensures
        create_outcome(d, config, h).0 is Ok <==> (h.files.contains_key(config.helper_spec())
            && !h.services.contains_key(d@.name)),
        create_outcome(d, config, h).0 is Ok ==> create_outcome(d, config, h).1 == (HostModel {
            services: h.services.insert(d@.name, RunState::Running),
            files: h.files,
        }),
        create_outcome(d, config, h).0 is Err ==> create_outcome(d, config, h).1 == h,
{
    reveal_with_fuel(run, 8);
    assert(h.services.insert(d@.name, RunState::Stopped).insert(d@.name, RunState::Running)
        =~= h.services.insert(d@.name, RunState::Running));
}

/// Deleting a service succeeds exactly when its name is registered; it then
/// removes the entry, and otherwise leaves the host as it was.
pub proof fn lemma_delete_outcome(d: SombraWindows, config: Config, h: HostModel)
    ensures
        delete_outcome(d, config, h).0 is Ok <==> h.services.contains_key(d@.name),
        delete_outcome(d, config, h).0 is Ok ==> delete_outcome(d, config, h).1 == (HostModel {
            services: h.services.remove(d@.name),
            files: h.files,
        }),
        delete_outcome(d, config, h).0 is Err ==> delete_outcome(d, config, h).1 == h,
{
    reveal_with_fuel(run, 8);
    assert(h.services.insert(d@.name, RunState::Stopped).remove(d@.name) =~= h.services.remove(
        d@.name,
    ));
}

} // verus!
