use vstd::prelude::*;
use crate::config::Config;
use crate::descriptor::{resolved_view, DescriptorView, SombraWindows};
use crate::error::{error_with, result_view, Error, ErrorKind, ErrorView};

verus! {

/// Opening words of the description attached to a new service entry; the
/// service name follows them.
pub const DESCRIPTION_PREFIX: &'static str = "Sombra Service Wrapper on ";

/// Message of the error given when the service manager's reply does not fit
/// the request that was made.
pub const UNEXPECTED_REPLY: &'static str = "unexpected reply from the service manager";

/// How long to wait, in milliseconds, after asking a service to stop and
/// before deleting it.
pub const SETTLE_MILLIS: u64 = 100;

/// The state of a service as the service manager reports it.
#[derive(Clone, Copy, Debug, PartialEq, Eq, Structural)]
pub enum RunState {
    Stopped,
    StartPending,
    StopPending,
    Running,
    ContinuePending,
    PausePending,
    Paused,
}

/// When the service manager starts a service of its own accord.
#[derive(Clone, Copy, Debug, PartialEq, Eq, Structural)]
pub enum StartType {
    BootStart,
    SystemStart,
    AutoStart,
    OnDemand,
    Disabled,
}

/// How the host reacts when the service fails to start.
#[derive(Clone, Copy, Debug, PartialEq, Eq, Structural)]
pub enum ErrorControl {
    Ignore,
    Normal,
    Severe,
    Critical,
}

/// The rights asked for when connecting to the service manager.
#[derive(Clone, Copy, Debug, PartialEq, Eq, Structural)]
pub struct ManagerRights {
    pub connect: bool,
    pub create_service: bool,
}

/// The rights asked for on a service entry.
#[derive(Clone, Copy, Debug, PartialEq, Eq, Structural)]
pub struct ServiceRights {
    pub change_config: bool,
    pub start: bool,
    pub query_status: bool,
    pub stop: bool,
    pub delete: bool,
}

/// The record submitted to the service manager to register a service.
/// An `account_name` of `None` leaves the host's default account.
#[derive(Debug, PartialEq, Eq)]
pub struct Registration {
    pub name: String,
    pub display_name: String,
    pub executable_path: String,
    pub launch_arguments: Vec<String>,
    pub dependencies: Vec<String>,
    pub start_type: StartType,
    pub error_control: ErrorControl,
    pub account_name: Option<String>,
}

pub struct RegistrationView {
    pub name: Seq<char>,
    pub display_name: Seq<char>,
    pub executable_path: Seq<char>,
    pub launch_arguments: Seq<Seq<char>>,
    pub dependencies: Seq<Seq<char>>,
    pub start_type: StartType,
    pub error_control: ErrorControl,
    pub account_name: Option<Seq<char>>,
}

impl View for Registration {
    type V = RegistrationView;

    open spec fn view(&self) -> RegistrationView {
        RegistrationView {
            name: self.name@,
            display_name: self.display_name@,
            executable_path: self.executable_path@,
            launch_arguments: self.launch_arguments.deep_view(),
            dependencies: self.dependencies.deep_view(),
            start_type: self.start_type,
            error_control: self.error_control,
            account_name: crate::error::option_string_view(self.account_name),
        }
    }
}

/// A request to the service manager, or to the machine around it.
#[derive(Debug, PartialEq, Eq)]
pub enum Action {
    /// Connect to the service manager with these rights.
    Connect(ManagerRights),
    /// Resolve this helper location to its canonical path on the file system.
    ResolveHelper(String),
    /// Register a service, and keep the new entry open with these rights.
    Register(Registration, ServiceRights),
    /// Set the description of the open entry.
    Describe(String),
    /// Open the entry of this name with these rights.
    Open(String, ServiceRights),
    /// Start the open entry with these launch arguments.
    Start(Vec<String>),
    /// Ask for the state of the open entry.
    QueryStatus,
    /// Ask the open entry to stop.
    Stop,
    /// Wait this many milliseconds.
    Wait(u64),
    /// Mark the open entry for deletion.
    Remove,
}

pub enum ActionView {
    Connect(ManagerRights),
    ResolveHelper(Seq<char>),
    Register(RegistrationView, ServiceRights),
    Describe(Seq<char>),
    Open(Seq<char>, ServiceRights),
    Start(Seq<Seq<char>>),
    QueryStatus,
    Stop,
    Wait(u64),
    Remove,
}

impl View for Action {
    type V = ActionView;

    open spec fn view(&self) -> ActionView {
        match self {
            Action::Connect(r) => ActionView::Connect(*r),
            Action::ResolveHelper(p) => ActionView::ResolveHelper(p@),
            Action::Register(reg, r) => ActionView::Register(reg@, *r),
            Action::Describe(t) => ActionView::Describe(t@),
            Action::Open(n, r) => ActionView::Open(n@, *r),
            Action::Start(a) => ActionView::Start(a.deep_view()),
            Action::QueryStatus => ActionView::QueryStatus,
            Action::Stop => ActionView::Stop,
            Action::Wait(ms) => ActionView::Wait(*ms),
            Action::Remove => ActionView::Remove,
        }
    }
}

/// The outcome of the last action, as handed back by whoever performed it.
#[derive(Debug, PartialEq, Eq)]
pub enum Event {
    /// The request succeeded and returned nothing that matters.
    Done,
    /// The helper location was resolved, or could not be.
    Resolved(Result<String, Error>),
    /// The entry reported this state.
    Status(RunState),
    /// The service manager failed the request with this message.
    Failed(String),
}

pub enum EventView {
    Done,
    Resolved(Result<Seq<char>, ErrorView>),
    Status(RunState),
    Failed(Seq<char>),
}

impl View for Event {
    type V = EventView;

    open spec fn view(&self) -> EventView {
        match self {
            Event::Done => EventView::Done,
            Event::Resolved(r) => EventView::Resolved(resolved_view(*r)),
            Event::Status(s) => EventView::Status(*s),
            Event::Failed(m) => EventView::Failed(m@),
        }
    }
}

/// Where a create or delete sequence stands: the request that was made last.
#[derive(Clone, Copy, Debug, PartialEq, Eq, Structural)]
pub enum Phase {
    Connecting,
    ResolvingHelper,
    Registering,
    Describing,
    OpeningForStart,
    Starting,
    ConnectingForRemoval,
    OpeningForRemoval,
    QueryingStatus,
    Stopping,
    Settling,
    Removing,
}

/// What comes after a reply: the next phase with its request, or the end of
/// the sequence with its result.
#[derive(Debug, PartialEq, Eq)]
pub enum Transition {
    Next(Phase, Action),
    Finished(Result<(), Error>),
}

pub enum TransitionView {
    Next(Phase, ActionView),
    Finished(Result<(), ErrorView>),
}

impl View for Transition {
    type V = TransitionView;

    open spec fn view(&self) -> TransitionView {
        match self {
            Transition::Next(p, a) => TransitionView::Next(*p, a@),
            Transition::Finished(r) => TransitionView::Finished(result_view(*r)),
        }
    }
}

/// The number of requests that at most remain after one in `phase`.
pub open spec fn remaining(phase: Phase) -> nat {
    match phase {
        Phase::Connecting => 5,
        Phase::ResolvingHelper => 4,
        Phase::Registering => 3,
        Phase::Describing => 2,
        Phase::OpeningForStart => 1,
        Phase::Starting => 0,
        Phase::ConnectingForRemoval => 5,
        Phase::OpeningForRemoval => 4,
        Phase::QueryingStatus => 3,
        Phase::Stopping => 2,
        Phase::Settling => 1,
        Phase::Removing => 0,
    }
}

pub open spec fn create_rights() -> ManagerRights {
    ManagerRights { connect: true, create_service: true }
}

pub open spec fn connect_rights() -> ManagerRights {
    ManagerRights { connect: true, create_service: false }
}

pub open spec fn config_rights() -> ServiceRights {
    ServiceRights { change_config: true, start: false, query_status: false, stop: false, delete: false }
}

pub open spec fn start_rights() -> ServiceRights {
    ServiceRights { change_config: false, start: true, query_status: false, stop: false, delete: false }
}

pub open spec fn removal_rights() -> ServiceRights {
    ServiceRights { change_config: false, start: false, query_status: true, stop: true, delete: true }
}

/// The record that registers `d` with the helper at `helper`: the name as key
/// and display name, started on demand, normal error control, no launch
/// arguments of its own, no dependencies, the default account.
pub open spec fn registration_spec(d: DescriptorView, helper: Seq<char>) -> RegistrationView {
    RegistrationView {
        name: d.name,
        display_name: d.name,
        executable_path: helper,
        launch_arguments: Seq::empty(),
        dependencies: Seq::empty(),
        start_type: StartType::OnDemand,
        error_control: ErrorControl::Normal,
        account_name: None,
    }
}

/// The description attached to the entry of `name`.
pub open spec fn description_spec(name: Seq<char>) -> Seq<char> {
    DESCRIPTION_PREFIX@ + name
}

/// The launch arguments of `d`'s service: its path, then its arguments.
pub open spec fn start_args_spec(d: DescriptorView) -> Seq<Seq<char>> {
    seq![d.path] + d.args
}

/// The error about `name` for a reply that does not fit the request.
pub open spec fn unexpected_spec(name: Seq<char>) -> ErrorView {
    error_with(ErrorKind::Service, UNEXPECTED_REPLY@, name)
}

/// The first step of creating a service: connect with the right to create.
pub open spec fn begin_create_spec() -> TransitionView {
    TransitionView::Next(Phase::Connecting, ActionView::Connect(create_rights()))
}

/// The first step of deleting a service: connect.
pub open spec fn begin_delete_spec() -> TransitionView {
    TransitionView::Next(Phase::ConnectingForRemoval, ActionView::Connect(connect_rights()))
}

/// The step that follows `ev` in `phase`, for the descriptor `d` and the
/// configured helper location `helper`. A failure ends the sequence with a
/// service error about `d`'s name; nothing is rolled back or retried.
pub open spec fn transition_spec(
    d: DescriptorView,
    helper: Seq<char>,
    phase: Phase,
    ev: EventView,
) -> TransitionView {
    match ev {
        EventView::Failed(m) => TransitionView::Finished(
            Err(error_with(ErrorKind::Service, m, d.name)),
        ),
        _ => match phase {
            Phase::Connecting => TransitionView::Next(
                Phase::ResolvingHelper,
                ActionView::ResolveHelper(helper),
            ),
            Phase::ResolvingHelper => match ev {
                EventView::Resolved(Ok(p)) => TransitionView::Next(
                    Phase::Registering,
                    ActionView::Register(registration_spec(d, p), config_rights()),
                ),
                EventView::Resolved(Err(e)) => TransitionView::Finished(Err(e)),
                _ => TransitionView::Finished(Err(unexpected_spec(d.name))),
            },
            Phase::Registering => TransitionView::Next(
                Phase::Describing,
                ActionView::Describe(description_spec(d.name)),
            ),
            Phase::Describing => TransitionView::Next(
                Phase::OpeningForStart,
                ActionView::Open(d.name, start_rights()),
            ),
            Phase::OpeningForStart => TransitionView::Next(
                Phase::Starting,
                ActionView::Start(start_args_spec(d)),
            ),
            Phase::Starting => TransitionView::Finished(Ok(())),
            Phase::ConnectingForRemoval => TransitionView::Next(
                Phase::OpeningForRemoval,
                ActionView::Open(d.name, removal_rights()),
            ),
            Phase::OpeningForRemoval => TransitionView::Next(
                Phase::QueryingStatus,
                ActionView::QueryStatus,
            ),
            Phase::QueryingStatus => match ev {
                EventView::Status(RunState::Stopped) => TransitionView::Next(
                    Phase::Removing,
                    ActionView::Remove,
                ),
                EventView::Status(_) => TransitionView::Next(Phase::Stopping, ActionView::Stop),
                _ => TransitionView::Finished(Err(unexpected_spec(d.name))),
            },
            Phase::Stopping => TransitionView::Next(Phase::Settling, ActionView::Wait(SETTLE_MILLIS)),
            Phase::Settling => TransitionView::Next(Phase::Removing, ActionView::Remove),
            Phase::Removing => TransitionView::Finished(Ok(())),
        },
    }
}

/// Each step moves closer to the end of its sequence, so a loop that feeds
/// replies to `advance` until the sequence finishes always ends.
pub proof fn lemma_transition_progress(d: DescriptorView, helper: Seq<char>, phase: Phase, ev: EventView)
    ensures
        transition_spec(d, helper, phase, ev) matches TransitionView::Next(p, _) ==> remaining(p)
            < remaining(phase),
{
}

fn manager_rights(create_service: bool) -> (r: ManagerRights)
    ensures
        r == (ManagerRights { connect: true, create_service }),
{
    ManagerRights { connect: true, create_service }
}

fn start_args(d: &SombraWindows) -> (r: Vec<String>)
    ensures
        r.deep_view() == start_args_spec(d@),
{
    let mut v: Vec<String> = Vec::new();
    v.push(d.path().to_owned());
    let args = d.args();
    let mut i: usize = 0;
    while i < args.len()
        invariant
            i <= args@.len(),
            args.deep_view() == d@.args,
            v.deep_view() =~= seq![d@.path] + d@.args.subrange(0, i as int),
        decreases args@.len() - i,
    {
        let a = args[i].clone();
        assert(a@ == d@.args[i as int]);
        let ghost before = v.deep_view();
        v.push(a);
        assert(v.deep_view() =~= before.push(a@));
        i += 1;
        assert(v.deep_view() =~= seq![d@.path] + d@.args.subrange(0, i as int));
    }
    assert(d@.args.subrange(0, i as int) =~= d@.args);
    v
}

fn registration(d: &SombraWindows, helper: String) -> (r: Registration)
    ensures
        r@ == registration_spec(d@, helper@),
{
    let r = Registration {
        name: d.name().to_owned(),
        display_name: d.name().to_owned(),
        executable_path: helper,
        launch_arguments: Vec::new(),
        dependencies: Vec::new(),
        start_type: StartType::OnDemand,
        error_control: ErrorControl::Normal,
        account_name: None,
    };
    assert(r.launch_arguments.deep_view() =~= Seq::<Seq<char>>::empty());
    assert(r.dependencies.deep_view() =~= Seq::<Seq<char>>::empty());
    r
}

impl SombraWindows {
    /// The first request of creating this service: connect to the service
    /// manager with the right to create services.
    pub fn begin_create(&self) -> (r: Transition)
        ensures
            r@ == begin_create_spec(),
    {
        Transition::Next(Phase::Connecting, Action::Connect(manager_rights(true)))
    }

    /// The first request of deleting this service: connect to the service
    /// manager.
    pub fn begin_delete(&self) -> (r: Transition)
        ensures
            r@ == begin_delete_spec(),
    {
        Transition::Next(Phase::ConnectingForRemoval, Action::Connect(manager_rights(false)))
    }

    /// The step that follows `event`, the reply to the request made in `phase`.
    pub fn advance(&self, config: &Config, phase: Phase, event: Event) -> (r: Transition)
        ensures
            r@ == transition_spec(self@, config.helper_spec(), phase, event@),
    {
        let name = self.name();
        match event {
            Event::Failed(m) => {
                return Transition::Finished(Err(Error::service(m, name)));
            },
            _ => {},
        }
        match phase {
            Phase::Connecting => Transition::Next(
                Phase::ResolvingHelper,
                Action::ResolveHelper(config.helper_location().to_owned()),
            ),
            Phase::ResolvingHelper => match event {
                Event::Resolved(Ok(p)) => Transition::Next(
                    Phase::Registering,
                    Action::Register(
                        registration(self, p),
                        ServiceRights {
                            change_config: true,
                            start: false,
                            query_status: false,
                            stop: false,
                            delete: false,
                        },
                    ),
                ),
                Event::Resolved(Err(e)) => Transition::Finished(Err(e)),
                _ => Transition::Finished(
                    Err(Error::service(UNEXPECTED_REPLY.to_owned(), name)),
                ),
            },
            Phase::Registering => Transition::Next(
                Phase::Describing,
                Action::Describe(String::from_str(DESCRIPTION_PREFIX).concat(name)),
            ),
            Phase::Describing => Transition::Next(
                Phase::OpeningForStart,
                Action::Open(
                    name.to_owned(),
                    ServiceRights {
                        change_config: false,
                        start: true,
                        query_status: false,
                        stop: false,
                        delete: false,
                    },
                ),
            ),
            Phase::OpeningForStart => Transition::Next(Phase::Starting, Action::Start(start_args(self))),
            Phase::Starting => Transition::Finished(Ok(())),
            Phase::ConnectingForRemoval => Transition::Next(
                Phase::OpeningForRemoval,
                Action::Open(
                    name.to_owned(),
                    ServiceRights {
                        change_config: false,
                        start: false,
                        query_status: true,
                        stop: true,
                        delete: true,
                    },
                ),
            ),
            Phase::OpeningForRemoval => Transition::Next(Phase::QueryingStatus, Action::QueryStatus),
            Phase::QueryingStatus => match event {
                Event::Status(RunState::Stopped) => Transition::Next(Phase::Removing, Action::Remove),
                Event::Status(_) => Transition::Next(Phase::Stopping, Action::Stop),
                _ => Transition::Finished(
                    Err(Error::service(UNEXPECTED_REPLY.to_owned(), name)),
                ),
            },
            Phase::Stopping => Transition::Next(Phase::Settling, Action::Wait(SETTLE_MILLIS)),
            Phase::Settling => Transition::Next(Phase::Removing, Action::Remove),
            Phase::Removing => Transition::Finished(Ok(())),
        }
    }
}

} // verus!
