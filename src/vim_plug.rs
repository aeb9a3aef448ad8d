//! What the library knows of vim-plug: the plugins it lists, in its own
//! order, and whether it has been loaded.
//!
//! The editor is reached by evaluating expressions in it, which the caller
//! does. A query says which expression it needs next and takes the result of
//! that evaluation, until it is finished.
use vstd::prelude::*;
use crate::value::{DynValue, str_of, i64_of, keys_are_strings, lookup, all_keys_strings, find};

verus! {

/// One plugin known to vim-plug.
#[derive(Debug)]
pub struct VimPlugInfo {
    pub name: String,
    pub uri: String,
}

impl View for VimPlugInfo {
    type V = (Seq<char>, Seq<char>);

    open spec fn view(&self) -> (Seq<char>, Seq<char>) {
        (self.name@, self.uri@)
    }
}

impl VimPlugInfo {
    pub fn new(name: String, uri: String) -> (r: Self)
        ensures
            r.name == name,
            r.uri == uri,
    {
        VimPlugInfo { name, uri }
    }
}

/// Whether vim-plug is known to be loaded.
#[derive(Clone, Copy, Debug, PartialEq, Eq, Structural)]
pub enum State {
    Unknown,
    AlreadyLoaded,
}

/// The views of a sequence of plugins.
pub open spec fn views(plugs: Seq<VimPlugInfo>) -> Seq<(Seq<char>, Seq<char>)> {
    plugs.map_values(|p: VimPlugInfo| p@)
}

/// The name of the attribute that holds a plugin's address.
pub open spec fn uri_key() -> Seq<char> {
    seq!['u', 'r', 'i']
}

/// The address of a plugin's descriptor: the descriptor is a map whose keys
/// are all strings, with a string under `uri`.
pub open spec fn uri_of(desc: DynValue) -> Option<Seq<char>> {
    match desc {
        DynValue::Dict(attrs) => if keys_are_strings(attrs@) {
            match lookup(attrs@, uri_key()) {
                Some(u) => str_of(u),
                None => None,
            }
        } else {
            None
        },
        _ => None,
    }
}

/// The plugin that one item of the order list stands for, where the item is a
/// string that names a descriptor with an address.
pub open spec fn plug_of(plugs: Seq<(DynValue, DynValue)>, item: DynValue) -> Option<
    (Seq<char>, Seq<char>),
> {
    match str_of(item) {
        Some(name) => match lookup(plugs, name) {
            Some(desc) => match uri_of(desc) {
                Some(uri) => Some((name, uri)),
                None => None,
            },
            None => None,
        },
        None => None,
    }
}

/// The plugins that the order list names, in its order, leaving out every
/// item that stands for none.
pub open spec fn plugs_in_order(plugs: Seq<(DynValue, DynValue)>, order: Seq<DynValue>) -> Seq<
    (Seq<char>, Seq<char>),
>
    decreases order.len(),
{
    if order.len() == 0 {
        seq![]
    } else {
        let before = plugs_in_order(plugs, order.drop_last());
        match plug_of(plugs, order.last()) {
            Some(p) => before.push(p),
            None => before,
        }
    }
}

fn uri_key_string() -> (r: String)
    ensures
        r@ == uri_key(),
{
    let r = String::from_str("uri");
    proof {
        reveal_strlit("uri");
        assert(r@ =~= uri_key());
    }
    r
}

/// The address held by a plugin's descriptor.
pub fn descriptor_uri(desc: &DynValue) -> (r: Option<&String>)
    ensures
        match r {
            Some(u) => uri_of(*desc) == Some(u@),
            None => uri_of(*desc).is_none(),
        },
{
    match desc.as_map() {
        Some(attrs) => {
            if !all_keys_strings(attrs) {
                return None;
            }
            let key = uri_key_string();
            match find(attrs, &key) {
                Some(u) => u.as_str(),
                None => None,
            }
        },
        None => None,
    }
}

/// The plugins named by `order`, in its order, each with the address from its
/// descriptor in `plugs`. An item that is not a string, that names no
/// descriptor, or whose descriptor holds no address is left out.
pub fn collect_plugs(plugs: &Vec<(DynValue, DynValue)>, order: &Vec<DynValue>) -> (r: Vec<
    VimPlugInfo,
>)
    ensures
        views(r@) == plugs_in_order(plugs@, order@),
{
    let mut r: Vec<VimPlugInfo> = Vec::new();
    let mut i: usize = 0;
    while i < order.len()
        invariant
            i <= order@.len(),
            views(r@) == plugs_in_order(plugs@, order@.subrange(0, i as int)),
        decreases order@.len() - i,
    {
        proof {
            let s = order@.subrange(0, i + 1);
            assert(s.drop_last() =~= order@.subrange(0, i as int));
            assert(s.last() == order@[i as int]);
        }
        let ghost before = r@;
        if let Some(name) = order[i].as_str() {
            if let Some(desc) = find(plugs, name) {
                if let Some(uri) = descriptor_uri(desc) {
                    r.push(VimPlugInfo::new(name.clone(), uri.clone()));
                    assert(views(r@) =~= views(before).push((name@, uri@)));
                }
            }
        }
        i = i + 1;
    }
    assert(order@.subrange(0, order@.len() as int) =~= order@);
    r
}

/// Why the list of plugins could not be read.
pub enum PlugsError {
    /// The editor session has not finished its setup.
    NotInitialized,
    /// Evaluating the descriptor map failed, for the reason given.
    PlugsUnavailable(String),
    /// The descriptor map is not a map.
    PlugsNotMap,
    /// A key of the descriptor map is not a string.
    PlugsKeyNotString,
    /// Evaluating the order list failed, for the reason given.
    OrderUnavailable(String),
    /// The order list is not an array.
    OrderNotArray,
}

/// The message that reports an error to a person.
pub open spec fn message_of(e: PlugsError) -> Seq<char> {
    match e {
        PlugsError::NotInitialized => "Nvim not initialized"@,
        PlugsError::PlugsUnavailable(detail) => "Can't retrive g:plugs map: "@ + detail@,
        PlugsError::PlugsNotMap => "Can't retrive g:plugs map"@,
        PlugsError::PlugsKeyNotString => "Can't convert map key to string"@,
        PlugsError::OrderUnavailable(detail) => detail@,
        PlugsError::OrderNotArray => "Can't find g:plugs_order array"@,
    }
}

impl PlugsError {
    pub fn message(&self) -> (r: String)
        ensures
            r@ == message_of(*self),
    {
        match self {
            PlugsError::NotInitialized => String::from_str("Nvim not initialized"),
            PlugsError::PlugsUnavailable(detail) => String::from_str(
                "Can't retrive g:plugs map: ",
            ).concat(detail.as_str()),
            PlugsError::PlugsNotMap => String::from_str("Can't retrive g:plugs map"),
            PlugsError::PlugsKeyNotString => String::from_str("Can't convert map key to string"),
            PlugsError::OrderUnavailable(detail) => detail.clone(),
            PlugsError::OrderNotArray => String::from_str("Can't find g:plugs_order array"),
        }
    }
}

/// An expression that the library asks the editor to evaluate.
#[derive(Clone, Copy, Debug, PartialEq, Eq, Structural)]
pub enum Expression {
    /// vim-plug's map from plugin name to descriptor.
    Plugs,
    /// vim-plug's list of plugin names, in its order.
    PlugsOrder,
    /// Whether vim-plug has set its flag of being loaded.
    LoadedProbe,
}

/// The text of an expression, in Vim script.
pub open spec fn text_of(e: Expression) -> Seq<char> {
    match e {
        Expression::Plugs => "g:plugs"@,
        Expression::PlugsOrder => "g:plugs_order"@,
        Expression::LoadedProbe => "exists('g:loaded_plug')"@,
    }
}

impl Expression {
    pub fn text(&self) -> (r: &'static str)
        ensures
            r@ == text_of(*self),
    {
        match self {
            Expression::Plugs => "g:plugs",
            Expression::PlugsOrder => "g:plugs_order",
            Expression::LoadedProbe => "exists('g:loaded_plug')",
        }
    }
}

/// The descriptor map read from the result of evaluating `g:plugs`.
pub open spec fn decode_plugs(result: Result<DynValue, String>) -> Result<
    Seq<(DynValue, DynValue)>,
    PlugsError,
> {
    match result {
        Err(e) => Err(PlugsError::PlugsUnavailable(e)),
        Ok(DynValue::Dict(entries)) => if keys_are_strings(entries@) {
            Ok(entries@)
        } else {
            Err(PlugsError::PlugsKeyNotString)
        },
        Ok(_) => Err(PlugsError::PlugsNotMap),
    }
}

/// The order list read from the result of evaluating `g:plugs_order`.
pub open spec fn decode_order(result: Result<DynValue, String>) -> Result<Seq<DynValue>, PlugsError> {
    match result {
        Err(e) => Err(PlugsError::OrderUnavailable(e)),
        Ok(DynValue::Array(items)) => Ok(items@),
        Ok(_) => Err(PlugsError::OrderNotArray),
    }
}

/// What a query asks of its caller next.
pub enum PlugsStep {
    /// Evaluate this expression and hand the result to `resume`.
    Evaluate(Expression),
    /// The query is over, with this outcome.
    Finished(Result<Vec<VimPlugInfo>, PlugsError>),
}

/// A query for the list of plugins, in progress.
pub enum PlugsQuery {
    /// Waiting for the result of evaluating `g:plugs`.
    AwaitingPlugs,
    /// Holding the descriptor map, waiting for the result of evaluating
    /// `g:plugs_order`.
    AwaitingOrder(Vec<(DynValue, DynValue)>),
    /// Finished.
    Done,
}

/// The first step of a query for the plugins: nothing is evaluated in a
/// session that is not ready.
pub open spec fn plugs_first_step(ready: bool) -> PlugsStep {
    if ready {
        PlugsStep::Evaluate(Expression::Plugs)
    } else {
        PlugsStep::Finished(Err(PlugsError::NotInitialized))
    }
}

/// The outcome of a query for the plugins on a ready session, from the
/// results of its two evaluations.
pub open spec fn plugs_outcome(
    plugs: Result<DynValue, String>,
    order: Result<DynValue, String>,
) -> Result<Seq<(Seq<char>, Seq<char>)>, PlugsError> {
    match decode_plugs(plugs) {
        Err(e) => Err(e),
        Ok(m) => match decode_order(order) {
            Err(e) => Err(e),
            Ok(o) => Ok(plugs_in_order(m, o)),
        },
    }
}

impl PlugsQuery {
    /// Starts a query on a session that is ready or not.
    pub fn start(ready: bool) -> (r: (PlugsQuery, PlugsStep))
        ensures
            r.1 == plugs_first_step(ready),
            ready ==> r.0 is AwaitingPlugs,
            !ready ==> r.0 is Done,
    {
        if ready {
            (PlugsQuery::AwaitingPlugs, PlugsStep::Evaluate(Expression::Plugs))
        } else {
            (PlugsQuery::Done, PlugsStep::Finished(Err(PlugsError::NotInitialized)))
        }
    }

    /// Takes the result of the evaluation that the last step asked for.
    pub fn resume(&mut self, result: Result<DynValue, String>) -> (step: PlugsStep)
        requires
            !(*old(self) is Done),
        ensures
            match *old(self) {
                PlugsQuery::AwaitingPlugs => match decode_plugs(result) {
                    Ok(m) => step == PlugsStep::Evaluate(Expression::PlugsOrder)
                        && (*final(self)) is AwaitingOrder && (*final(self))->AwaitingOrder_0@ == m,
                    Err(e) => step == PlugsStep::Finished(Err(e)) && (*final(self)) is Done,
                },
                PlugsQuery::AwaitingOrder(held) => (*final(self)) is Done && match decode_order(result) {
                    Ok(o) => step is Finished && step->Finished_0 is Ok
                        && views(step->Finished_0->Ok_0@) == plugs_in_order(held@, o),
                    Err(e) => step == PlugsStep::Finished(Err(e)),
                },
                PlugsQuery::Done => false,
            },
    {
        let mut current = PlugsQuery::Done;
        core::mem::swap(self, &mut current);
        match current {
            PlugsQuery::AwaitingPlugs => match result {
                Err(e) => PlugsStep::Finished(Err(PlugsError::PlugsUnavailable(e))),
                Ok(DynValue::Dict(entries)) => {
                    if all_keys_strings(&entries) {
                        *self = PlugsQuery::AwaitingOrder(entries);
                        PlugsStep::Evaluate(Expression::PlugsOrder)
                    } else {
                        PlugsStep::Finished(Err(PlugsError::PlugsKeyNotString))
                    }
                },
                Ok(_) => PlugsStep::Finished(Err(PlugsError::PlugsNotMap)),
            },
            PlugsQuery::AwaitingOrder(held) => match result {
                Err(e) => PlugsStep::Finished(Err(PlugsError::OrderUnavailable(e))),
                Ok(DynValue::Array(items)) => PlugsStep::Finished(Ok(collect_plugs(&held, &items))),
                Ok(_) => PlugsStep::Finished(Err(PlugsError::OrderNotArray)),
            },
            PlugsQuery::Done => PlugsStep::Finished(Err(PlugsError::NotInitialized)),
        }
    }
}

/// What a probe of the load state asks of its caller next.
pub enum StateStep {
    /// Evaluate this expression and hand the result to `state_from_probe`.
    Evaluate(Expression),
    /// The state, known without evaluating anything.
    Finished(State),
}

/// The first step of a probe of the load state: nothing is evaluated in a
/// session that is not ready.
pub open spec fn state_first_step(ready: bool) -> StateStep {
    if ready {
        StateStep::Evaluate(Expression::LoadedProbe)
    } else {
        StateStep::Finished(State::Unknown)
    }
}

/// The load state read from the result of the probe: loaded exactly when it
/// is an integer greater than zero.
pub open spec fn probe_state(result: Result<DynValue, String>) -> State {
    match result {
        Ok(v) => match i64_of(v) {
            Some(n) => if n > 0 {
                State::AlreadyLoaded
            } else {
                State::Unknown
            },
            None => State::Unknown,
        },
        Err(_) => State::Unknown,
    }
}

/// The outcome of a probe of the load state.
pub struct ProbeOutcome {
    pub state: State,
    /// An error of the evaluation, to be reported to the editor.
    pub report: Option<String>,
}

pub fn state_start(ready: bool) -> (r: StateStep)
    ensures
        r == state_first_step(ready),
{
    if ready {
        StateStep::Evaluate(Expression::LoadedProbe)
    } else {
        StateStep::Finished(State::Unknown)
    }
}

/// Reads the load state from the result of evaluating the probe; a failed
/// evaluation is handed back for reporting.
pub fn state_from_probe(result: Result<DynValue, String>) -> (r: ProbeOutcome)
    ensures
        r.state == probe_state(result),
        match result {
            Ok(_) => r.report.is_none(),
            Err(e) => r.report == Some(e),
        },
{
    match result {
        Ok(v) => {
            let state = match v.as_i64() {
                Some(n) => if n > 0 {
                    State::AlreadyLoaded
                } else {
                    State::Unknown
                },
                None => State::Unknown,
            };
            ProbeOutcome { state, report: None }
        },
        Err(e) => ProbeOutcome { state: State::Unknown, report: Some(e) },
    }
}

} // verus!
