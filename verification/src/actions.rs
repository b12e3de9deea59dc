//! Running the actions bound to gestures, finding and listing them.

use vstd::prelude::*;
use crate::error::{joined, AppError};
use crate::ids::{new_random_id, is_random_v4, NIL_ID};
use crate::models::{ActionType, AssignedAction, ExecutionResult};
use crate::storage::{action_type_from_name, action_type_name, action_type_of_text, action_type_text};
use crate::time::Timestamp;

verus! {

/// Something that runs one type of action on a payload.
pub trait ActionExecutor: Send + Sync {
    /// Runs the action on `payload`.
    fn execute(&self, payload: &str) -> Result<ExecutionResult, AppError>;

    /// The type of action this executor runs.
    fn action_type(&self) -> ActionType;
}

/// Opens an application named by the payload.
pub struct OpenAppExecutor;

/// Runs the shell command given by the payload.
pub struct ExecuteCommandExecutor;

/// Opens the URL given by the payload.
pub struct OpenUrlExecutor;

/// Simulates the key presses given by the payload (not registered yet).
pub struct SimulateKeyboardExecutor;

/// The message a built-in executor reports for a payload, for the action
/// types that have a built-in executor.
pub open spec fn builtin_message(t: ActionType, payload: Seq<char>) -> Option<Seq<char>> {
    match t {
        ActionType::OpenApp => Some("Opening: "@ + payload),
        ActionType::ExecuteCommand => Some("Command executed: "@ + payload),
        ActionType::OpenUrl => Some("URL opened: "@ + payload),
        _ => None,
    }
}

/// Whether `r` is the successful report of the built-in executor for `t` on
/// `payload`; its time is the clock's when the report was made.
pub open spec fn is_builtin_report(t: ActionType, payload: Seq<char>, r: ExecutionResult) -> bool {
    &&& r.action_id == NIL_ID
    &&& r.success
    &&& builtin_message(t, payload) == Some(r.message@)
}

/// A successful report with the current time.
fn success_report(message: String) -> (r: ExecutionResult)
    ensures
        r.action_id == NIL_ID,
        r.success,
        r.message == message,
{
    ExecutionResult { action_id: NIL_ID, success: true, message, timestamp: Timestamp::now() }
}

impl ActionExecutor for OpenAppExecutor {
    fn execute(&self, payload: &str) -> (r: Result<ExecutionResult, AppError>)
        ensures
            r matches Ok(res) && is_builtin_report(ActionType::OpenApp, payload@, res),
    {
        Ok(success_report(joined("Opening: ", payload)))
    }

    fn action_type(&self) -> (r: ActionType)
        ensures
            r == ActionType::OpenApp,
    {
        ActionType::OpenApp
    }
}

impl ActionExecutor for ExecuteCommandExecutor {
    fn execute(&self, payload: &str) -> (r: Result<ExecutionResult, AppError>)
        ensures
            r matches Ok(res) && is_builtin_report(ActionType::ExecuteCommand, payload@, res),
    {
        Ok(success_report(joined("Command executed: ", payload)))
    }

    fn action_type(&self) -> (r: ActionType)
        ensures
            r == ActionType::ExecuteCommand,
    {
        ActionType::ExecuteCommand
    }
}

impl ActionExecutor for OpenUrlExecutor {
    fn execute(&self, payload: &str) -> (r: Result<ExecutionResult, AppError>)
        ensures
            r matches Ok(res) && is_builtin_report(ActionType::OpenUrl, payload@, res),
    {
        Ok(success_report(joined("URL opened: ", payload)))
    }

    fn action_type(&self) -> (r: ActionType)
        ensures
            r == ActionType::OpenUrl,
    {
        ActionType::OpenUrl
    }
}

/// One of the executors the engine registers.
pub enum RegisteredExecutor {
    OpenApp(OpenAppExecutor),
    ExecuteCommand(ExecuteCommandExecutor),
    OpenUrl(OpenUrlExecutor),
}

impl RegisteredExecutor {
    /// The action type this executor runs.
    pub open spec fn runs(&self) -> ActionType {
        match self {
            RegisteredExecutor::OpenApp(_) => ActionType::OpenApp,
            RegisteredExecutor::ExecuteCommand(_) => ActionType::ExecuteCommand,
            RegisteredExecutor::OpenUrl(_) => ActionType::OpenUrl,
        }
    }
}

impl ActionExecutor for RegisteredExecutor {
    fn execute(&self, payload: &str) -> (r: Result<ExecutionResult, AppError>)
        ensures
            r matches Ok(res) && is_builtin_report(self.runs(), payload@, res),
    {
        match self {
            RegisteredExecutor::OpenApp(e) => e.execute(payload),
            RegisteredExecutor::ExecuteCommand(e) => e.execute(payload),
            RegisteredExecutor::OpenUrl(e) => e.execute(payload),
        }
    }

    fn action_type(&self) -> (r: ActionType)
        ensures
            r == self.runs(),
    {
        match self {
            RegisteredExecutor::OpenApp(e) => e.action_type(),
            RegisteredExecutor::ExecuteCommand(e) => e.action_type(),
            RegisteredExecutor::OpenUrl(e) => e.action_type(),
        }
    }
}

/// The action types that have a registered executor.
pub open spec fn has_executor(t: ActionType) -> bool {
    t == ActionType::OpenApp || t == ActionType::ExecuteCommand || t == ActionType::OpenUrl
}

/// The message of the report for an action whose type has no executor.
pub open spec fn no_executor_text(t: ActionType) -> Seq<char> {
    "No executor for action type: "@ + action_type_text(t)
}

/// Runs actions with the executor registered for their type.
pub struct ActionEngine {
    executors: Vec<RegisteredExecutor>,
}

impl ActionEngine {
    /// The engine's registry: the executors run exactly the types that
    /// `has_executor` names.
    #[verifier::type_invariant]
    closed spec fn well_formed(&self) -> bool {
        &&& forall|i: int| 0 <= i < self.executors@.len() ==> has_executor(#[trigger] self.executors@[i].runs())
        &&& forall|t: ActionType| has_executor(t) ==> exists|i: int| 0 <= i < self.executors@.len() && #[trigger] self.executors@[i].runs() == t
    }

    /// The action types of the registered executors, in registration order.
    pub closed spec fn registered(&self) -> Seq<ActionType> {
        self.executors@.map_values(|e: RegisteredExecutor| e.runs())
    }

    /// An engine with the executors for opening an application, running a
    /// command and opening a URL.
    pub fn new() -> (r: ActionEngine)
        ensures
            r.registered() == seq![ActionType::OpenApp, ActionType::ExecuteCommand, ActionType::OpenUrl],
    {
        let mut executors: Vec<RegisteredExecutor> = Vec::new();
        executors.push(RegisteredExecutor::OpenApp(OpenAppExecutor));
        executors.push(RegisteredExecutor::ExecuteCommand(ExecuteCommandExecutor));
        executors.push(RegisteredExecutor::OpenUrl(OpenUrlExecutor));
        assert(executors@[0].runs() == ActionType::OpenApp);
        assert(executors@[1].runs() == ActionType::ExecuteCommand);
        assert(executors@[2].runs() == ActionType::OpenUrl);
        let r = ActionEngine { executors };
        assert(r.registered() =~= seq![ActionType::OpenApp, ActionType::ExecuteCommand, ActionType::OpenUrl]);
        r
    }

    /// Runs an action. A type with an executor gives that executor's own
    /// report, which a built-in executor makes under the nil identifier; any
    /// other type fails, under the action's identifier, with a message that
    /// names the type.
    pub fn execute(&self, action: &AssignedAction) -> (r: ExecutionResult)
        ensures
            has_executor(action.action_type) ==> is_builtin_report(action.action_type, action.payload@, r),
            !has_executor(action.action_type) ==> {
                &&& r.action_id == action.action_id
                &&& !r.success
                &&& r.message@ == no_executor_text(action.action_type)
            },
    {
        proof {
            use_type_invariant(self);
        }
        let n = self.executors.len();
        let mut i: usize = 0;
        while i < n
            invariant
                n == self.executors@.len(),
                self.well_formed(),
                i <= n,
                forall|j: int| 0 <= j < i ==> self.executors@[j].runs() != action.action_type,
            decreases n - i,
        {
            let executor = &self.executors[i];
            if executor.action_type() == action.action_type {
                return match executor.execute(action.payload.as_str()) {
                    Ok(result) => result,
                    Err(e) => ExecutionResult {
                        action_id: action.action_id,
                        success: false,
                        message: e.message(),
                        timestamp: Timestamp::now(),
                    },
                };
            }
            i = i + 1;
        }
        ExecutionResult {
            action_id: action.action_id,
            success: false,
            message: joined("No executor for action type: ", action_type_name(action.action_type)),
            timestamp: Timestamp::now(),
        }
    }
}

/// An action as the frontend lists it.
#[derive(Debug)]
pub struct ActionInfo {
    pub id: u128,
    pub gesture_id: u128,
    pub action_type: String,
    pub payload: String,
    pub enabled: bool,
}

/// The listing of an action: its fields, with the type by name.
pub fn action_info(a: AssignedAction) -> (r: ActionInfo)
    ensures
        r.id == a.action_id,
        r.gesture_id == a.gesture_id,
        r.action_type@ == action_type_text(a.action_type),
        r.payload == a.payload,
        r.enabled == a.enabled,
{
    ActionInfo {
        id: a.action_id,
        gesture_id: a.gesture_id,
        action_type: String::from_str(action_type_name(a.action_type)),
        payload: a.payload,
        enabled: a.enabled,
    }
}

/// A new enabled action for a gesture, with a fresh random identifier and
/// the type named by `action_type` (any other name gives `OpenApp`).
pub fn new_action(gesture_id: u128, action_type: &str, payload: String) -> (r: AssignedAction)
    ensures
        is_random_v4(r.action_id),
        r.gesture_id == gesture_id,
        r.action_type == action_type_of_text(action_type@),
        r.payload == payload,
        r.enabled,
{
    AssignedAction {
        action_id: new_random_id(),
        gesture_id,
        action_type: action_type_from_name(action_type),
        payload,
        enabled: true,
    }
}

/// The first action with the given identifier, or the error that no action
/// has it.
pub fn find_action(actions: Vec<AssignedAction>, action_id: u128) -> (r: Result<AssignedAction, AppError>)
    ensures
        match r {
            Ok(a) => exists|i: int|
                #![trigger actions@[i]]
                0 <= i < actions@.len() && actions@[i] == a && a.action_id == action_id && forall|j: int|
                    0 <= j < i ==> #[trigger] actions@[j].action_id != action_id,
            Err(e) => {
                &&& forall|i: int| 0 <= i < actions@.len() ==> #[trigger] actions@[i].action_id != action_id
                &&& e matches AppError::Action(m) && m@ == "Action not found"@
            },
        },
{
    let ghost given = actions@;
    let mut list = actions;
    let n = list.len();
    let mut i: usize = 0;
    while i < n
        invariant
            list@ == given,
            actions@ == given,
            n == given.len(),
            i <= n,
            forall|j: int| 0 <= j < i ==> #[trigger] given[j].action_id != action_id,
        decreases n - i,
    {
        if list[i].action_id == action_id {
            let a = list.remove(i);
            assert(given[i as int] == a);
            return Ok(a);
        }
        i = i + 1;
    }
    Err(AppError::Action(String::from_str("Action not found")))
}

/// The enabled actions of a sequence, in order.
pub open spec fn enabled_actions(s: Seq<AssignedAction>) -> Seq<AssignedAction>
    decreases s.len(),
{
    if s.len() == 0 {
        Seq::empty()
    } else {
        let rest = enabled_actions(s.drop_last());
        if s.last().enabled {
            rest.push(s.last())
        } else {
            rest
        }
    }
}

/// The actions a recognized gesture triggers: its enabled actions, in order.
pub fn triggered_actions(actions: &Vec<AssignedAction>) -> (r: Vec<AssignedAction>)
    ensures
        r@ == enabled_actions(actions@),
{
    let mut r: Vec<AssignedAction> = Vec::new();
    let n = actions.len();
    let mut i: usize = 0;
    while i < n
        invariant
            n == actions@.len(),
            i <= n,
            r@ == enabled_actions(actions@.take(i as int)),
        decreases n - i,
    {
        assert(actions@.take(i + 1).drop_last() =~= actions@.take(i as int));
        if actions[i].enabled {
            r.push(actions[i].clone());
        }
        i = i + 1;
    }
    assert(actions@.take(n as int) =~= actions@);
    r
}

} // verus!

verus! {

/// The actions a gesture triggers are enabled, come from its actions, and
/// every enabled action is among them.
pub proof fn lemma_triggered_actions(s: Seq<AssignedAction>)
    ensures
        forall|i: int| 0 <= i < enabled_actions(s).len() ==> (#[trigger] enabled_actions(s)[i]).enabled && s.contains(enabled_actions(s)[i]),
        forall|i: int| 0 <= i < s.len() && (#[trigger] s[i]).enabled ==> enabled_actions(s).contains(s[i]),
        enabled_actions(s).len() <= s.len(),
    decreases s.len(),
{
    if s.len() > 0 {
        let rest = s.drop_last();
        lemma_triggered_actions(rest);
        let e = enabled_actions(s);
        let er = enabled_actions(rest);
        assert forall|i: int| 0 <= i < e.len() implies (#[trigger] e[i]).enabled && s.contains(e[i]) by {
            if i < er.len() {
                assert(e[i] == er[i]);
                let k = choose|k: int| 0 <= k < rest.len() && rest[k] == er[i];
                assert(s[k] == rest[k]);
            } else {
                assert(e[i] == s.last());
                assert(s[s.len() - 1] == s.last());
            }
        }
        assert forall|i: int| 0 <= i < s.len() && (#[trigger] s[i]).enabled implies e.contains(s[i]) by {
            if i < s.len() - 1 {
                assert(rest[i] == s[i]);
                let k = choose|k: int| 0 <= k < er.len() && er[k] == rest[i];
                assert(e[k] == er[k]);
            } else {
                assert(e[e.len() - 1] == s.last());
            }
        }
    }
}


/// Whether an action is enabled, as a predicate.
pub open spec fn is_enabled() -> spec_fn(AssignedAction) -> bool {
    |a: AssignedAction| a.enabled
}

/// The triggered actions are the actions filtered by `enabled`: exactly
/// the enabled ones, each once, in the order they are stored.
pub proof fn lemma_triggered_is_filter(s: Seq<AssignedAction>)
    ensures
        enabled_actions(s) == s.filter(is_enabled()),
    decreases s.len(),
{
    reveal(Seq::filter);
    if s.len() > 0 {
        lemma_triggered_is_filter(s.drop_last());
        assert(is_enabled()(s.last()) == s.last().enabled);
    }
}

/// Triggering keeps the order across any split of the actions: the actions
/// triggered by `s1` followed by `s2` are those triggered by `s1`, then
/// those triggered by `s2`; a single action triggers itself where enabled
/// and nothing otherwise.
pub proof fn lemma_triggered_in_order(s1: Seq<AssignedAction>, s2: Seq<AssignedAction>, a: AssignedAction)
    ensures
        enabled_actions(s1 + s2) == enabled_actions(s1) + enabled_actions(s2),
        enabled_actions(seq![a]) == if a.enabled { seq![a] } else { Seq::<AssignedAction>::empty() },
    decreases s2.len(),
{
    assert(seq![a].drop_last() =~= Seq::<AssignedAction>::empty());
    assert(enabled_actions(seq![a].drop_last()) == Seq::<AssignedAction>::empty());
    assert(seq![a].last() == a);
    assert(Seq::<AssignedAction>::empty().push(a) =~= seq![a]);
    if s2.len() == 0 {
        assert(s1 + s2 =~= s1);
        assert(enabled_actions(s1) + enabled_actions(s2) =~= enabled_actions(s1));
    } else {
        lemma_triggered_in_order(s1, s2.drop_last(), a);
        assert((s1 + s2).drop_last() =~= s1 + s2.drop_last());
        assert((s1 + s2).last() == s2.last());
        if s2.last().enabled {
            assert(enabled_actions(s1) + enabled_actions(s2.drop_last()).push(s2.last())
                =~= (enabled_actions(s1) + enabled_actions(s2.drop_last())).push(s2.last()));
        }
    }
}

} // verus!

