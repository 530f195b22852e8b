//! Reporting of just-in-time compiled methods: the reporter issues an
//! identifier for each method, describes the method to the backend, and tells
//! the backend once when reporting is over.
use vstd::prelude::*;
use vstd::utf8::encode_utf8;
use crate::backend::{required, Call, Entry, Pending, Table};
use crate::text::{is_first_nul, representable, BackendString};

verus! {

/// The kind of notification, as the backend tells them apart.
#[derive(Clone, Copy, Debug, PartialEq, Eq, Structural)]
pub enum EventTag {
    MethodInlineLoadFinished,
    Shutdown,
}

/// An identifier for one method. It holds the number that the backend issued,
/// which is also its view.
#[derive(Clone, Copy, Debug, PartialEq, Eq, Structural)]
pub struct MethodId(u32);

impl View for MethodId {
    type V = u32;

    closed spec fn view(&self) -> u32 {
        self.0
    }
}

impl MethodId {
    /// The number that the backend issued.
    pub fn value(&self) -> (issued: u32)
        ensures
            issued == self@,
    {
        self.0
    }
}

/// Identifiers are told apart by the numbers they were made from: as long as
/// the backend issues a new number each time, no two identifiers are equal.
pub proof fn lemma_method_ids_differ(a: MethodId, b: MethodId)
    ensures
        a == b <==> a@ == b@,
{
}

/// What the backend is told about a method that has been loaded.
#[derive(Debug, PartialEq, Eq)]
pub struct MethodLoad {
    pub method_id: MethodId,
    pub method_name: BackendString,
    pub method_load_address: usize,
    pub method_size: u32,
    pub line_number_size: u32,
    pub line_number_table: usize,
    pub class_id: u32,
    pub class_file_name: BackendString,
    pub source_file_name: BackendString,
}

/// A notification for the backend.
#[derive(Debug, PartialEq, Eq)]
pub enum EventType {
    /// A method has been loaded into memory, and possibly compiled, but its
    /// code has not run yet.
    MethodLoadFinished(MethodLoad),
    /// Reporting is over.
    Shutdown,
}

impl EventType {
    /// The tag that the notification goes out with.
    pub open spec fn spec_tag(&self) -> EventTag {
        match self {
            EventType::MethodLoadFinished(_) => EventTag::MethodInlineLoadFinished,
            EventType::Shutdown => EventTag::Shutdown,
        }
    }

    /// The tag that the notification goes out with.
    #[verifier::when_used_as_spec(spec_tag)]
    pub fn tag(&self) -> (tag: EventTag)
        ensures
            tag == self.spec_tag(),
    {
        match self {
            EventType::MethodLoadFinished(_) => EventTag::MethodInlineLoadFinished,
            EventType::Shutdown => EventTag::Shutdown,
        }
    }

    /// The record that the notification goes out with, if it has one.
    pub open spec fn spec_data(self) -> Option<MethodLoad> {
        match self {
            EventType::MethodLoadFinished(load) => Some(load),
            EventType::Shutdown => None,
        }
    }

    /// The record that the notification goes out with, if it has one.
    #[verifier::when_used_as_spec(spec_data)]
    pub fn data(self) -> (payload: Option<MethodLoad>)
        ensures
            payload == self.spec_data(),
    {
        match self {
            EventType::MethodLoadFinished(load) => Some(load),
            EventType::Shutdown => None,
        }
    }
}

/// The names that a method is described by.
#[derive(Clone, Copy, Debug, PartialEq, Eq, Structural)]
pub enum NameField {
    Method,
    ClassFile,
    SourceFile,
}

/// Why the backend did not get, or did not take, a notification.
#[derive(Clone, Copy, Debug, PartialEq, Eq, Structural)]
pub enum JitError {
    /// One of the method's names holds a terminator, whose first byte stands
    /// at `position` in the name's encoding.
    InvalidName { field: NameField, position: usize },
    /// The backend answered a notification with a failure status.
    NotifyFailed,
    /// The backend answered the report of a method with a failure status.
    RegistrationFailed,
}

impl JitError {
    /// The error in words.
    pub fn message(&self) -> (text: &'static str)
        ensures
            text@ == match self {
                JitError::InvalidName { .. } => "CString::new failed"@,
                JitError::NotifyFailed => "error when notifying event"@,
                JitError::RegistrationFailed => "error when registering a method"@,
            },
    {
        match self {
            JitError::InvalidName { .. } => "CString::new failed",
            JitError::NotifyFailed => "error when notifying event",
            JitError::RegistrationFailed => "error when registering a method",
        }
    }
}

/// The class file name of a method that was given none.
pub open spec fn unknown_class_file() -> Seq<char> {
    "<unknown class file name>"@
}

/// The source file name of a method that was given none.
pub open spec fn unknown_source_file() -> Seq<char> {
    "<unknown source file name>"@
}

/// The names that stand in for a missing class file or source file can be
/// handed to the backend.
pub proof fn lemma_unknown_names_representable()
    ensures
        representable(unknown_class_file()),
        representable(unknown_source_file()),
{
    reveal_strlit("<unknown class file name>");
    reveal_strlit("<unknown source file name>");
}

/// What a builder holds: the method's name, where its code starts, how many
/// bytes the code takes, and the names of its class file and source file where
/// they were given.
pub struct MethodLoadBuilderView {
    pub method_name: Seq<char>,
    pub addr: usize,
    pub len: usize,
    pub class_file_name: Option<Seq<char>>,
    pub source_file_name: Option<Seq<char>>,
}

impl MethodLoadBuilderView {
    /// The name that the record gets in `field`.
    pub open spec fn label(self, field: NameField) -> Seq<char> {
        match field {
            NameField::Method => self.method_name,
            NameField::ClassFile => match self.class_file_name {
                Some(name) => name,
                None => unknown_class_file(),
            },
            NameField::SourceFile => match self.source_file_name {
                Some(name) => name,
                None => unknown_source_file(),
            },
        }
    }

    /// Every name of the method can be handed to the backend.
    pub open spec fn buildable(self) -> bool {
        &&& representable(self.label(NameField::Method))
        &&& representable(self.label(NameField::ClassFile))
        &&& representable(self.label(NameField::SourceFile))
    }

    /// The first name, in the order of the record, that cannot be handed to
    /// the backend.
    pub open spec fn first_invalid(self) -> NameField
        recommends
            !self.buildable(),
    {
        if !representable(self.label(NameField::Method)) {
            NameField::Method
        } else if !representable(self.label(NameField::ClassFile)) {
            NameField::ClassFile
        } else {
            NameField::SourceFile
        }
    }

    /// `load` is the record of this method under the identifier `method_id`:
    /// it has no line numbers and no class identifier.
    pub open spec fn describes(self, method_id: MethodId, load: MethodLoad) -> bool {
        &&& load.method_id == method_id
        &&& load.method_name@ == encode_utf8(self.label(NameField::Method))
        &&& load.method_load_address == self.addr
        &&& load.method_size == self.len
        &&& load.line_number_size == 0
        &&& load.line_number_table == 0
        &&& load.class_id == 0
        &&& load.class_file_name@ == encode_utf8(self.label(NameField::ClassFile))
        &&& load.source_file_name@ == encode_utf8(self.label(NameField::SourceFile))
    }

    /// `error` names the first name that cannot be handed to the backend, and
    /// the first terminator byte in it.
    pub open spec fn rejects(self, error: JitError) -> bool {
        &&& !self.buildable()
        &&& error matches JitError::InvalidName { field, position }
        &&& field == self.first_invalid()
        &&& is_first_nul(encode_utf8(self.label(field)), position as int)
    }
}

/// Collects, step by step, what the backend is told about one method.
pub struct MethodLoadBuilder {
    method_name: String,
    addr: usize,
    len: usize,
    class_file_name: Option<String>,
    source_file_name: Option<String>,
}

impl View for MethodLoadBuilder {
    type V = MethodLoadBuilderView;

    closed spec fn view(&self) -> MethodLoadBuilderView {
        MethodLoadBuilderView {
            method_name: self.method_name@,
            addr: self.addr,
            len: self.len,
            class_file_name: match self.class_file_name {
                Some(name) => Some(name@),
                None => None,
            },
            source_file_name: match self.source_file_name {
                Some(name) => Some(name@),
                None => None,
            },
        }
    }
}

fn name_or<'a>(name: &'a Option<String>, fallback: &'a str) -> (label: &'a str)
    ensures
        label@ == match name {
            Some(given) => given@,
            None => fallback@,
        },
{
    match name {
        Some(given) => given.as_str(),
        None => fallback,
    }
}

impl MethodLoadBuilder {
    /// Starts the description of a method whose code begins at the address
    /// `addr` and is `len` bytes long.
    pub fn new(method_name: String, addr: usize, len: usize) -> (builder: MethodLoadBuilder)
        ensures
            builder@ == (MethodLoadBuilderView {
                method_name: method_name@,
                addr,
                len,
                class_file_name: None,
                source_file_name: None,
            }),
    {
        MethodLoadBuilder { method_name, addr, len, class_file_name: None, source_file_name: None }
    }

    /// Attaches the name of the method's class file.
    pub fn class_file_name(self, class_file_name: String) -> (builder: MethodLoadBuilder)
        ensures
            builder@ == (MethodLoadBuilderView {
                class_file_name: Some(class_file_name@),
                ..self@
            }),
    {
        MethodLoadBuilder { class_file_name: Some(class_file_name), ..self }
    }

    /// Attaches the name of the method's source file.
    pub fn source_file_name(self, source_file_name: String) -> (builder: MethodLoadBuilder)
        ensures
            builder@ == (MethodLoadBuilderView {
                source_file_name: Some(source_file_name@),
                ..self@
            }),
    {
        MethodLoadBuilder { source_file_name: Some(source_file_name), ..self }
    }

    /// Builds the notification that reports the method under `method_id`.
    ///
    /// The names are converted in the order of the record, and the first one
    /// that holds a terminator is reported. The length of the code has to fit
    /// the backend's 32-bit size.
    pub fn build(self, method_id: MethodId) -> (r: Result<EventType, JitError>)
        requires
            representable(self@.method_name) ==> self@.len <= u32::MAX,
        ensures
            r is Ok <==> self@.buildable(),
            match r {
                Ok(event) => event matches EventType::MethodLoadFinished(load) && self@.describes(
                    method_id,
                    load,
                ),
                Err(error) => self@.rejects(error),
            },
    {
        let method_name = match BackendString::new(self.method_name.as_str()) {
            Ok(name) => name,
            Err(e) => {
                return Err(
                    JitError::InvalidName { field: NameField::Method, position: e.position },
                );
            },
        };
        let method_size = u32::try_from(self.len).expect("cannot fit length into 32 bits");
        let class_file_name = match BackendString::new(
            name_or(&self.class_file_name, "<unknown class file name>"),
        ) {
            Ok(name) => name,
            Err(e) => {
                return Err(
                    JitError::InvalidName { field: NameField::ClassFile, position: e.position },
                );
            },
        };
        let source_file_name = match BackendString::new(
            name_or(&self.source_file_name, "<unknown source file name>"),
        ) {
            Ok(name) => name,
            Err(e) => {
                return Err(
                    JitError::InvalidName { field: NameField::SourceFile, position: e.position },
                );
            },
        };
        Ok(
            EventType::MethodLoadFinished(
                MethodLoad {
                    method_id,
                    method_name,
                    method_load_address: self.addr,
                    method_size,
                    line_number_size: 0,
                    line_number_table: 0,
                    class_id: 0,
                    class_file_name,
                    source_file_name,
                },
            ),
        )
    }
}

/// Where a reporter stands: it reports until the backend has been told that
/// reporting is over, and never again after that.
#[derive(Clone, Copy, Debug, PartialEq, Eq, Structural)]
pub enum JitState {
    Active,
    ShutdownComplete,
}

/// The notification that ends reporting.
pub open spec fn shutdown_call() -> Call {
    Call::NotifyEvent { tag: EventTag::Shutdown, payload: None }
}

/// What the backend's answer to a notification means: only the backend's
/// explicit success status is a success.
pub open spec fn notify_result(status: i32) -> Result<(), JitError> {
    if status == 1 {
        Ok(())
    } else {
        Err(JitError::NotifyFailed)
    }
}

impl JitState {
    /// An attempt to shut down, up to the call it leaves for the backend. A
    /// reporter that is shut down has nothing to do. An active one notifies
    /// the backend where the entry point is wired, and waits for the answer;
    /// where the entry point is absent the shutdown has succeeded without a
    /// call.
    pub open spec fn request_shutdown(self, wired: Set<Entry>) -> (
        JitState,
        Pending<Result<(), JitError>>,
    ) {
        match self {
            JitState::ShutdownComplete => (JitState::ShutdownComplete, Pending::Ready(Ok(()))),
            JitState::Active => if wired.contains(Entry::NotifyEvent) {
                (JitState::Active, Pending::Awaiting(shutdown_call()))
            } else {
                (JitState::ShutdownComplete, Pending::Ready(Ok(())))
            },
        }
    }

    /// The backend's answer to the shutdown notification: success ends
    /// reporting, a failure leaves the reporter as it was, so that the shutdown
    /// can be tried again.
    pub open spec fn shutdown_answered(self, status: i32) -> (JitState, Result<(), JitError>) {
        if status == 1 {
            (JitState::ShutdownComplete, Ok(()))
        } else {
            (self, Err(JitError::NotifyFailed))
        }
    }

    /// A whole attempt to shut down, in which the backend, if it is asked,
    /// answers with `status`: where the reporter stands afterwards, whether
    /// the backend was asked, and how the attempt ended.
    pub open spec fn shutdown_attempt(self, wired: Set<Entry>, status: i32) -> (
        JitState,
        bool,
        Result<(), JitError>,
    ) {
        match self.request_shutdown(wired) {
            (requested, Pending::Awaiting(_)) => {
                let (answered, result) = requested.shutdown_answered(status);
                (answered, true, result)
            },
            (requested, Pending::Ready(result)) => (requested, false, result),
        }
    }

    /// Where the reporter stands after the attempts `attempts`, each given by
    /// the entry points wired at the time and the status the backend would
    /// answer with.
    pub open spec fn after_shutdown_attempts(
        self,
        attempts: Seq<(Set<Entry>, i32)>,
    ) -> JitState
        decreases attempts.len(),
    {
        if attempts.len() == 0 {
            self
        } else {
            self.shutdown_attempt(attempts[0].0, attempts[0].1).0.after_shutdown_attempts(
                attempts.drop_first(),
            )
        }
    }
}

/// A shutdown that has succeeded is final: whatever is attempted afterwards,
/// and however often, the reporter stays shut down, and a further attempt
/// succeeds without asking the backend.
pub proof fn lemma_shutdown_is_final(
    attempts: Seq<(Set<Entry>, i32)>,
    wired: Set<Entry>,
    status: i32,
)
    ensures
        JitState::ShutdownComplete.after_shutdown_attempts(attempts) == JitState::ShutdownComplete,
        JitState::ShutdownComplete.after_shutdown_attempts(attempts).shutdown_attempt(
            wired,
            status,
        ) == (JitState::ShutdownComplete, false, Ok::<(), JitError>(())),
    decreases attempts.len(),
{
    if attempts.len() > 0 {
        lemma_shutdown_is_final(attempts.drop_first(), wired, status);
    }
}

/// An attempt to shut down succeeds exactly when reporting was over already,
/// or the backend was not there to be asked, or it answered with its success
/// status. The reporter is shut down after the attempts that succeed and
/// after no others, and the backend is asked by an active reporter whose
/// entry point is wired and by no other.
pub proof fn lemma_shutdown_attempt(state: JitState, wired: Set<Entry>, status: i32)
    ensures
        state.shutdown_attempt(wired, status).2 is Ok <==> (state == JitState::ShutdownComplete
            || !wired.contains(Entry::NotifyEvent) || status == 1),
        state.shutdown_attempt(wired, status).0 == JitState::ShutdownComplete
            <==> state.shutdown_attempt(wired, status).2 is Ok,
        state.shutdown_attempt(wired, status).1 <==> (state == JitState::Active
            && wired.contains(Entry::NotifyEvent)),
{
}

/// Registers just-in-time compiled methods with the backend. A reporter is
/// meant for one thread; where several threads report, each use has to be
/// exclusive.
#[derive(Debug)]
pub struct Jit {
    state: JitState,
}

impl View for Jit {
    type V = JitState;

    closed spec fn view(&self) -> JitState {
        self.state
    }
}

impl Default for Jit {
    /// A reporter that has not been shut down.
    fn default() -> (jit: Jit)
        ensures
            jit@ == JitState::Active,
    {
        Jit { state: JitState::Active }
    }
}

impl Jit {
    /// Where the reporter stands.
    pub fn state(&self) -> (state: JitState)
        ensures
            state == self@,
    {
        self.state
    }

    /// The identifier for a new method, from the number `issued` that the
    /// backend gave out for it.
    pub fn get_method_id(&self, issued: u32) -> (id: MethodId)
        ensures
            id@ == issued,
    {
        MethodId(issued)
    }

    /// Decides on the notification `event`: it goes to the backend, with its
    /// tag and its record, where the entry point is wired, and the backend's
    /// answer says how it went. Where the entry point is absent nothing is
    /// sent, and the notification has succeeded as it is.
    pub fn notify_event(&self, event: EventType, table: &Table) -> (r: Pending<
        Result<(), JitError>,
    >)
        ensures
            r == required(
                table@,
                Call::NotifyEvent { tag: event.tag(), payload: event.data() },
                Ok::<(), JitError>(()),
            ),
    {
        let tag = event.tag();
        let payload = event.data();
        table.request(Call::NotifyEvent { tag, payload }, Ok(()))
    }

    /// Takes the backend's answer to a notification.
    pub fn notified(status: i32) -> (r: Result<(), JitError>)
        ensures
            r == notify_result(status),
    {
        if status == 1 {
            Ok(())
        } else {
            Err(JitError::NotifyFailed)
        }
    }

    /// Reports the method that `builder` describes, under the identifier made
    /// from `issued`: builds its record and decides on the notification. A
    /// name that cannot be handed to the backend is an error, and nothing is
    /// sent then. Where the entry point is absent nothing is sent either, and
    /// the report has succeeded as it is.
    pub fn load_method(&self, builder: MethodLoadBuilder, issued: u32, table: &Table) -> (r:
        Pending<Result<(), JitError>>)
        requires
            representable(builder@.method_name) ==> builder@.len <= u32::MAX,
        ensures
            match r {
                Pending::Awaiting(call) => {
                    &&& builder@.buildable()
                    &&& table@.contains(Entry::NotifyEvent)
                    &&& call matches Call::NotifyEvent { tag, payload }
                    &&& tag == EventTag::MethodInlineLoadFinished
                    &&& payload matches Some(load)
                    &&& load.method_id@ == issued
                    &&& builder@.describes(load.method_id, load)
                },
                Pending::Ready(Ok(_)) => {
                    &&& builder@.buildable()
                    &&& !table@.contains(Entry::NotifyEvent)
                },
                Pending::Ready(Err(error)) => builder@.rejects(error),
            },
    {
        let method_id = self.get_method_id(issued);
        match builder.build(method_id) {
            Ok(event) => self.notify_event(event, table),
            Err(error) => Pending::Ready(Err(error)),
        }
    }

    /// Takes the backend's answer to the report of a method.
    pub fn method_loaded(status: i32) -> (r: Result<(), JitError>)
        ensures
            r == if status == 1 {
                Ok::<(), JitError>(())
            } else {
                Err(JitError::RegistrationFailed)
            },
    {
        if status == 1 {
            Ok(())
        } else {
            Err(JitError::RegistrationFailed)
        }
    }

    /// Attempts to shut reporting down, up to the call for the backend. Once a
    /// shutdown has succeeded, a further one succeeds at once and sends
    /// nothing. This is also what is to run when the reporter is given up.
    pub fn shutdown(&mut self, table: &Table) -> (r: Pending<Result<(), JitError>>)
        ensures
            (final(self)@, r) == old(self)@.request_shutdown(table@),
    {
        match self.state {
            JitState::ShutdownComplete => Pending::Ready(Ok(())),
            JitState::Active => {
                let r = self.notify_event(EventType::Shutdown, table);
                if let Pending::Ready(_) = r {
                    self.state = JitState::ShutdownComplete;
                }
                r
            },
        }
    }

    /// Takes the backend's answer to the shutdown notification.
    pub fn shutdown_notified(&mut self, status: i32) -> (r: Result<(), JitError>)
        ensures
            (final(self)@, r) == old(self)@.shutdown_answered(status),
    {
        let r = Jit::notified(status);
        if r.is_ok() {
            self.state = JitState::ShutdownComplete;
        }
        r
    }
}

} // verus!
