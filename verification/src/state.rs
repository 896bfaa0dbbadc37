//! UPnP AV 2.0 state management: `StateSchema`, `StateVariable`, `StateStore`.
//!
//! - `StateSchema` is the definition of one state variable (name, default,
//!   SCPD metadata).
//! - `StateVariable` holds a current value and whether it changed since the
//!   last event.
//! - `StateStore` is the registry of the state variables of one service, with
//!   per-InstanceID copies of the instance-scoped ones.
//!
//! Writing the same value does not mark a variable as changed (per the UPnP
//! spec).
use vstd::prelude::*;

use crate::text::{str_eq, to_owned_string};
use crate::types::upnp::{value_text, wire_type_name, DataType, DataValue, Error};

verus! {

// ---------------------------------------------------------------------------
// StateVariableName — trait for state variable name enums
// ---------------------------------------------------------------------------

/// Trait for state variable name enums.
///
/// Implemented by each service's `StateVariableName` enum to provide the wire
/// name, the two eventing dimensions of the UPnP AV spec (`is_evented`: sends
/// events directly or indirectly; `via_lastchange`: collated into the
/// LastChange document), instance scoping and the SCPD data type name.
pub trait StateVariableName: Copy {
    /// The UPnP wire name.
    spec fn wire_name(&self) -> Seq<char>;

    /// Sends events (is_evented=YES column).
    spec fn evented(&self) -> bool;

    /// Evented through the LastChange document.
    spec fn in_last_change(&self) -> bool;

    /// Scoped per InstanceID.
    spec fn instance_scoped(&self) -> bool;

    /// The SCPD data type name.
    spec fn data_type_text(&self) -> Seq<char>;

    /// Whether the service of these names registers a definition under this one.
    spec fn registered(&self) -> bool;

    /// Returns the UPnP wire format name (e.g., "TransportState").
    fn as_str(&self) -> (r: &'static str)
        ensures
            r@ == self.wire_name(),
    ;

    /// Returns true if this variable is evented per UPnP spec (is_evented=YES column).
    fn is_evented(&self) -> (r: bool)
        ensures
            r == self.evented(),
    ;

    /// Returns true if this variable is indirectly evented via the LastChange XML payload.
    fn via_lastchange(&self) -> (r: bool)
        ensures
            r == self.in_last_change(),
    ;

    /// Returns true if this variable is scoped per InstanceID.
    fn is_instance_scoped(&self) -> (r: bool)
        ensures
            r == self.instance_scoped(),
    ;

    /// Returns the UPnP wire type name for SCPD XML generation (e.g., "string", "ui4").
    fn data_type_name(&self) -> (r: &'static str)
        ensures
            r@ == self.data_type_text(),
    ;
}

// ---------------------------------------------------------------------------
// StateSchema — definition of a state variable
// ---------------------------------------------------------------------------

/// Definition of a state variable: name, default value, SCPD metadata.
#[derive(Debug)]
pub struct StateSchema<S> {
    /// State variable name (typed enum variant).
    pub name: S,
    /// Default value.
    pub default: DataType,
    /// SCPD allowed value list.
    pub allowed_values: Option<Vec<String>>,
    /// SCPD allowed value range (minimum, maximum, step).
    pub allowed_value_range: Option<(String, String, String)>,
    /// If true, this is an A_ARG_TYPE variable (type definition, not a real state
    /// variable): emitted in SCPD without defaultValue.
    pub argument_type: bool,
}

impl<S: Default> Default for StateSchema<S> {
    fn default() -> (r: Self)
        ensures
            r.default@ == DataValue::String(Seq::empty()),
            r.allowed_values is None,
            r.allowed_value_range is None,
            !r.argument_type,
    {
        let r = StateSchema {
            name: S::default(),
            default: DataType::String(String::new()),
            allowed_values: None,
            allowed_value_range: None,
            argument_type: false,
        };
        r
    }
}

/// A `StateSchema` with no SCPD metadata.
pub fn state_def<S: StateVariableName>(name: S, default: DataType) -> (r: StateSchema<S>)
    ensures
        r.name == name,
        r.default@ == default@,
        r.allowed_values is None,
        r.allowed_value_range is None,
        !r.argument_type,
{
    StateSchema { name, default, allowed_values: None, allowed_value_range: None, argument_type: false }
}

// ---------------------------------------------------------------------------
// StateVariable — runtime state variable with current value
// ---------------------------------------------------------------------------

/// The view of a state variable.
pub struct VarView {
    pub value: DataValue,
    pub has_changes: bool,
}

/// A variable after writing `x`: unchanged when it already holds `x`, else
/// holding `x` and marked as changed.
pub open spec fn written(v: VarView, x: DataValue) -> VarView {
    if v.value == x {
        v
    } else {
        VarView { value: x, has_changes: true }
    }
}

/// Runtime state variable with current value and change tracking.
#[derive(Debug)]
pub struct StateVariable {
    /// Current value.
    pub current_value: DataType,
    /// Whether this variable has pending changes since last event.
    pub has_changes: bool,
}

impl View for StateVariable {
    type V = VarView;

    open spec fn view(&self) -> VarView {
        VarView { value: self.current_value@, has_changes: self.has_changes }
    }
}

impl Clone for StateVariable {
    fn clone(&self) -> (r: Self)
        ensures
            r@ == self@,
    {
        StateVariable { current_value: self.current_value.duplicate(), has_changes: self.has_changes }
    }
}

impl StateVariable {
    /// Create a new state variable with its default value.
    pub fn new(default: DataType) -> (r: Self)
        ensures
            r@ == (VarView { value: default@, has_changes: false }),
    {
        StateVariable { current_value: default, has_changes: false }
    }

    /// Set the current value; marks a change only when the value differs.
    pub fn set(&mut self, value: DataType)
        ensures
            final(self)@ == written(old(self)@, value@),
    {
        if !self.current_value.same_value(&value) {
            self.current_value = value;
            self.has_changes = true;
        }
    }

    /// Mark this variable as having no pending changes (called after eventing).
    pub fn clear_changes(&mut self)
        ensures
            final(self)@ == (VarView { value: old(self)@.value, has_changes: false }),
    {
        self.has_changes = false;
    }
}

// ---------------------------------------------------------------------------
// Keyed sequences
// ---------------------------------------------------------------------------

/// The views of a list of named variables.
pub open spec fn entries_view(s: Seq<(String, StateVariable)>) -> Seq<(Seq<char>, VarView)> {
    s.map_values(|e: (String, StateVariable)| (e.0@, e.1@))
}

/// No key occurs twice.
pub open spec fn unique_keys<V>(s: Seq<(Seq<char>, V)>) -> bool {
    forall|i: int, j: int| 0 <= i < s.len() && 0 <= j < s.len() && i != j ==> #[trigger] s[i].0 != #[trigger] s[j].0
}

/// The position of key `k`, if present.
pub open spec fn key_pos<V>(s: Seq<(Seq<char>, V)>, k: Seq<char>) -> Option<int> {
    if exists|i: int| 0 <= i < s.len() && #[trigger] s[i].0 == k {
        Some(choose|i: int| 0 <= i < s.len() && #[trigger] s[i].0 == k)
    } else {
        None
    }
}

/// With unique keys, a position holding `k` is the position of `k`.
pub proof fn lemma_key_pos<V>(s: Seq<(Seq<char>, V)>, k: Seq<char>, i: int)
    requires
        unique_keys(s),
        0 <= i < s.len(),
        s[i].0 == k,
    ensures
        key_pos(s, k) == Some(i),
{
    let j = choose|j: int| 0 <= j < s.len() && #[trigger] s[j].0 == k;
    if j != i {
        assert(s[i].0 != s[j].0);
    }
}

/// The position of instance `id`, if present.
pub open spec fn id_pos<V>(s: Seq<(u32, V)>, id: u32) -> Option<int> {
    if exists|i: int| 0 <= i < s.len() && #[trigger] s[i].0 == id {
        Some(choose|i: int| 0 <= i < s.len() && #[trigger] s[i].0 == id)
    } else {
        None
    }
}

/// No instance id occurs twice.
pub open spec fn unique_ids<V>(s: Seq<(u32, V)>) -> bool {
    forall|i: int, j: int| 0 <= i < s.len() && 0 <= j < s.len() && i != j ==> #[trigger] s[i].0 != #[trigger] s[j].0
}

proof fn lemma_id_pos<V>(s: Seq<(u32, V)>, id: u32, i: int)
    requires
        unique_ids(s),
        0 <= i < s.len(),
        s[i].0 == id,
    ensures
        id_pos(s, id) == Some(i),
{
    let j = choose|j: int| 0 <= j < s.len() && #[trigger] s[j].0 == id;
    if j != i {
        assert(s[i].0 != s[j].0);
    }
}

/// Two values of the same UPnP data type.
pub open spec fn same_kind(a: DataValue, b: DataValue) -> bool {
    wire_type_name(a) == wire_type_name(b)
}

/// Whether two values are of the same UPnP data type.
pub fn same_data_kind(a: &DataType, b: &DataType) -> (r: bool)
    ensures
        r == same_kind(a@, b@),
{
    str_eq(a.as_str(), b.as_str())
}

/// `vs` after writing `x` to key `k` (unchanged when `k` is absent).
pub open spec fn write_entry(vs: Seq<(Seq<char>, VarView)>, k: Seq<char>, x: DataValue) -> Seq<
    (Seq<char>, VarView),
> {
    match key_pos(vs, k) {
        Some(i) => vs.update(i, (k, written(vs[i].1, x))),
        None => vs,
    }
}

/// Whether the definitions accept `x` as a value of `k`: `k` is registered
/// (`vs` are the global variables, one per definition, in order) and its
/// definition's default is of `x`'s data type.
pub open spec fn accepts<S: StateVariableName>(
    schema: Seq<StateSchema<S>>,
    vs: Seq<(Seq<char>, VarView)>,
    k: Seq<char>,
    x: DataValue,
) -> bool {
    match key_pos(vs, k) {
        Some(i) => same_kind(schema[i].default@, x),
        None => false,
    }
}

/// The global variables after a write checked against the definitions: `x`
/// is written to `k` when the definitions accept it, else nothing changes.
pub open spec fn checked_write<S: StateVariableName>(
    schema: Seq<StateSchema<S>>,
    vs: Seq<(Seq<char>, VarView)>,
    k: Seq<char>,
    x: DataValue,
) -> Seq<(Seq<char>, VarView)> {
    if accepts(schema, vs, k, x) {
        write_entry(vs, k, x)
    } else {
        vs
    }
}

/// Every variable of `vs` with its change mark cleared.
pub open spec fn cleared(vs: Seq<(Seq<char>, VarView)>) -> Seq<(Seq<char>, VarView)> {
    vs.map_values(|e: (Seq<char>, VarView)| (e.0, VarView { value: e.1.value, has_changes: false }))
}

// ---------------------------------------------------------------------------
// StateStore — registry of the state variables of a service
// ---------------------------------------------------------------------------

/// Runtime registry of state variables for a service.
///
/// Holds the definitions, the global (InstanceID=0) variables and the
/// per-InstanceID copies of the instance-scoped variables. Definitions and
/// global variables are kept in registration order, one variable per
/// definition.
pub struct StateStore<S: StateVariableName> {
    schema: Vec<StateSchema<S>>,
    variables: Vec<(String, StateVariable)>,
    instance_states: Vec<(u32, Vec<(String, StateVariable)>)>,
}

/// The views of the per-instance variable lists.
pub open spec fn instances_view(s: Seq<(u32, Vec<(String, StateVariable)>)>) -> Seq<
    (u32, Seq<(Seq<char>, VarView)>),
> {
    s.map_values(|e: (u32, Vec<(String, StateVariable)>)| (e.0, entries_view(e.1@)))
}

/// The wire names of a list of definitions.
pub open spec fn schema_names<S: StateVariableName>(s: Seq<StateSchema<S>>) -> Seq<Seq<char>> {
    s.map_values(|d: StateSchema<S>| d.name.wire_name())
}

/// The variables of a new instance: one per instance-scoped definition, at its
/// default value, in definition order.
pub open spec fn instance_defaults<S: StateVariableName>(s: Seq<StateSchema<S>>) -> Seq<
    (Seq<char>, VarView),
>
    decreases s.len(),
{
    if s.len() == 0 {
        seq![]
    } else {
        let rest = instance_defaults(s.drop_last());
        let d = s.last();
        if d.name.instance_scoped() {
            rest.push((d.name.wire_name(), VarView { value: d.default@, has_changes: false }))
        } else {
            rest
        }
    }
}

/// The (name, value text) pairs of the evented variables, in definition order;
/// with `changed_only`, only those with pending changes.
pub open spec fn evented_pairs<S: StateVariableName>(
    schema: Seq<StateSchema<S>>,
    vars: Seq<(Seq<char>, VarView)>,
    changed_only: bool,
) -> Seq<(Seq<char>, Seq<char>)>
    decreases vars.len(),
{
    if vars.len() == 0 || schema.len() == 0 {
        seq![]
    } else {
        let rest = evented_pairs(schema.drop_last(), vars.drop_last(), changed_only);
        let d = schema.last();
        let v = vars.last();
        if (d.name.evented() || d.name.in_last_change()) && (!changed_only || v.1.has_changes) {
            rest.push((v.0, value_text(v.1.value)))
        } else {
            rest
        }
    }
}

/// The variable an instance reads for a definition: its own copy when the
/// variable is instance-scoped and the instance holds one, else the global one.
pub open spec fn instance_var<S: StateVariableName>(
    d: StateSchema<S>,
    global: (Seq<char>, VarView),
    inst: Option<Seq<(Seq<char>, VarView)>>,
) -> VarView {
    match inst {
        Some(iv) => if d.name.instance_scoped() && key_pos(iv, global.0) is Some {
            iv[key_pos(iv, global.0)->0].1
        } else {
            global.1
        },
        None => global.1,
    }
}

/// The (name, value text) pairs of the evented variables as seen by an
/// instance, in definition order; with `changed_only`, only those with pending
/// changes.
pub open spec fn evented_pairs_for<S: StateVariableName>(
    schema: Seq<StateSchema<S>>,
    vars: Seq<(Seq<char>, VarView)>,
    inst: Option<Seq<(Seq<char>, VarView)>>,
    changed_only: bool,
) -> Seq<(Seq<char>, Seq<char>)>
    decreases vars.len(),
{
    if vars.len() == 0 || schema.len() == 0 {
        seq![]
    } else {
        let rest = evented_pairs_for(schema.drop_last(), vars.drop_last(), inst, changed_only);
        let d = schema.last();
        let v = instance_var(d, vars.last(), inst);
        if (d.name.evented() || d.name.in_last_change()) && (!changed_only || v.has_changes) {
            rest.push((vars.last().0, value_text(v.value)))
        } else {
            rest
        }
    }
}

/// The definitions and variables after registering `def`: a name already
/// registered has its definition and value replaced, a new name is appended;
/// the variable starts at its default value with no pending change.
pub open spec fn register_one<S: StateVariableName>(
    st: (Seq<StateSchema<S>>, Seq<(Seq<char>, VarView)>),
    def: StateSchema<S>,
) -> (Seq<StateSchema<S>>, Seq<(Seq<char>, VarView)>) {
    let k = def.name.wire_name();
    let nv = VarView { value: def.default@, has_changes: false };
    match key_pos(st.1, k) {
        Some(i) => (st.0.update(i, def), st.1.update(i, (k, nv))),
        None => (st.0.push(def), st.1.push((k, nv))),
    }
}

/// The definitions and variables after registering each of `defs`, in order.
pub open spec fn register_all<S: StateVariableName>(
    st: (Seq<StateSchema<S>>, Seq<(Seq<char>, VarView)>),
    defs: Seq<StateSchema<S>>,
) -> (Seq<StateSchema<S>>, Seq<(Seq<char>, VarView)>)
    decreases defs.len(),
{
    if defs.len() == 0 {
        st
    } else {
        register_one(register_all(st, defs.drop_last()), defs.last())
    }
}

/// The view of a definition.
pub struct SchemaView<S> {
    pub name: S,
    pub default: DataValue,
    pub allowed_values: Option<Seq<Seq<char>>>,
    pub allowed_value_range: Option<(Seq<char>, Seq<char>, Seq<char>)>,
    pub argument_type: bool,
}

/// The view of a definition: strings as character sequences.
pub open spec fn schema_view<S>(d: StateSchema<S>) -> SchemaView<S> {
    SchemaView {
        name: d.name,
        default: d.default@,
        allowed_values: match d.allowed_values {
            Some(v) => Some(v@.map_values(|x: String| x@)),
            None => None,
        },
        allowed_value_range: match d.allowed_value_range {
            Some(r) => Some((r.0@, r.1@, r.2@)),
            None => None,
        },
        argument_type: d.argument_type,
    }
}

/// The views of a list of definitions.
pub open spec fn schema_views<S>(s: Seq<StateSchema<S>>) -> Seq<SchemaView<S>> {
    s.map_values(|d: StateSchema<S>| schema_view(d))
}

/// Every name the service registers has a variable in the store.
pub open spec fn holds_registered<S: StateVariableName>(vs: Seq<(Seq<char>, VarView)>) -> bool {
    forall|n: S| #[trigger] n.registered() ==> key_pos(vs, n.wire_name()) is Some
}

/// A lock holding a state store keeps it well formed, with a variable for
/// every name the service registers, and with the definitions it was made
/// with.
pub struct StoreLock<S> {
    pub schema: Ghost<Seq<StateSchema<S>>>,
}

impl<S: StateVariableName> vstd::rwlock::RwLockPredicate<StateStore<S>> for StoreLock<S> {
    open spec fn inv(self, v: StateStore<S>) -> bool {
        v.wf() && holds_registered::<S>(v.vars()) && v.schema_seq() == self.schema@
    }
}

/// Two well-formed stores with the same definitions hold variables under the
/// same names.
pub proof fn lemma_same_schema_same_names<S: StateVariableName>(a: StateStore<S>, b: StateStore<S>, k: Seq<char>)
    requires
        a.wf(),
        b.wf(),
        a.schema_seq() == b.schema_seq(),
    ensures
        key_pos(a.vars(), k) is Some <==> key_pos(b.vars(), k) is Some,
{
    if let Some(i) = key_pos(a.vars(), k) {
        assert(a.vars()[i].0 == k);
        assert(b.vars()[i].0 == a.schema_seq()[i].name.wire_name());
    }
    if let Some(i) = key_pos(b.vars(), k) {
        assert(b.vars()[i].0 == k);
        assert(a.vars()[i].0 == b.schema_seq()[i].name.wire_name());
    }
}

/// A well-formed store keeps a variable for every name the service registers
/// when its definitions stay the same.
pub proof fn lemma_same_schema_holds_registered<S: StateVariableName>(a: StateStore<S>, b: StateStore<S>)
    requires
        a.wf(),
        b.wf(),
        a.schema_seq() == b.schema_seq(),
        holds_registered::<S>(a.vars()),
    ensures
        holds_registered::<S>(b.vars()),
{
    assert forall|n: S| #[trigger] n.registered() implies key_pos(b.vars(), n.wire_name()) is Some by {
        lemma_same_schema_same_names(a, b, n.wire_name());
    }
}

/// Registering definitions keeps every name already held and adds the name of
/// each definition.
pub proof fn lemma_register_all_names<S: StateVariableName>(
    st: (Seq<StateSchema<S>>, Seq<(Seq<char>, VarView)>),
    defs: Seq<StateSchema<S>>,
    k: Seq<char>,
)
    ensures
        key_pos(st.1, k) is Some ==> key_pos(register_all(st, defs).1, k) is Some,
        (exists|i: int| 0 <= i < defs.len() && #[trigger] defs[i].name.wire_name() == k) ==> key_pos(
            register_all(st, defs).1,
            k,
        ) is Some,
    decreases defs.len(),
{
    if defs.len() > 0 {
        let prev = register_all(st, defs.drop_last());
        lemma_register_all_names(st, defs.drop_last(), k);
        let d = defs.last();
        let dk = d.name.wire_name();
        let nv = VarView { value: d.default@, has_changes: false };
        let next = register_all(st, defs);
        assert(next == register_one(prev, d));
        if key_pos(prev.1, k) is Some {
            let j = key_pos(prev.1, k)->0;
            assert(prev.1[j].0 == k);
            match key_pos(prev.1, dk) {
                Some(i) => {
                    assert(prev.1[i].0 == dk);
                    assert(next.1[j].0 == k);
                },
                None => {
                    assert(next.1[j].0 == k);
                },
            }
        }
        match key_pos(prev.1, dk) {
            Some(i) => {
                assert(prev.1[i].0 == dk);
                assert(next.1[i].0 == dk);
            },
            None => {
                assert(next.1[prev.1.len() as int].0 == dk);
            },
        }
        if exists|i: int| 0 <= i < defs.len() && #[trigger] defs[i].name.wire_name() == k {
            let i = choose|i: int| 0 <= i < defs.len() && #[trigger] defs[i].name.wire_name() == k;
            if i < defs.len() - 1 {
                assert(defs.drop_last()[i].name.wire_name() == k);
            }
        }
    }
}

impl<S: StateVariableName> StateStore<S> {
    /// The registered definitions, in registration order.
    pub closed spec fn schema_seq(&self) -> Seq<StateSchema<S>> {
        self.schema@
    }

    /// The global variables (name, view), in registration order.
    pub closed spec fn vars(&self) -> Seq<(Seq<char>, VarView)> {
        entries_view(self.variables@)
    }

    /// The instances (id, variables), in creation order.
    pub closed spec fn instances(&self) -> Seq<(u32, Seq<(Seq<char>, VarView)>)> {
        instances_view(self.instance_states@)
    }

    /// The variables of instance `id`, if it exists.
    pub open spec fn instance(&self, id: u32) -> Option<Seq<(Seq<char>, VarView)>> {
        match id_pos(self.instances(), id) {
            Some(i) => Some(self.instances()[i].1),
            None => None,
        }
    }

    /// One global variable per definition, under the definition's name, names
    /// unique; instance ids unique and each instance's names unique.
    pub closed spec fn wf(&self) -> bool {
        &&& self.schema@.len() == self.variables@.len()
        &&& forall|i: int|
            0 <= i < self.schema@.len() ==> #[trigger] self.variables@[i].0@
                == self.schema@[i].name.wire_name()
        &&& unique_keys(self.vars())
        &&& unique_ids(self.instances())
        &&& forall|i: int| 0 <= i < self.instances().len() ==> unique_keys(#[trigger] self.instances()[i].1)
    }

    /// In a well-formed store each name has one global variable, one
    /// definition at the same position, and at most one variable in each
    /// instance; instance ids are unique.
    pub proof fn lemma_wf_names(&self)
        requires
            self.wf(),
        ensures
            unique_keys(self.vars()),
            self.schema_seq().len() == self.vars().len(),
            forall|i: int| 0 <= i < self.vars().len() ==> #[trigger] self.vars()[i].0 == self.schema_seq()[i].name.wire_name(),
            unique_ids(self.instances()),
            forall|i: int| 0 <= i < self.instances().len() ==> unique_keys(#[trigger] self.instances()[i].1),
    {
        assert forall|i: int| 0 <= i < self.vars().len() implies #[trigger] self.vars()[i].0
            == self.schema_seq()[i].name.wire_name() by {
            assert(self.variables@[i].0@ == self.schema@[i].name.wire_name());
        }
    }

    /// Create a new empty state store.
    pub fn new() -> (r: Self)
        ensures
            r.wf(),
            r.schema_seq() == Seq::<StateSchema<S>>::empty(),
            r.vars() == Seq::<(Seq<char>, VarView)>::empty(),
            r.instances() == Seq::<(u32, Seq<(Seq<char>, VarView)>)>::empty(),
    {
        let r = StateStore { schema: Vec::new(), variables: Vec::new(), instance_states: Vec::new() };
        assert(r.vars() =~= Seq::<(Seq<char>, VarView)>::empty());
        assert(r.instances() =~= Seq::<(u32, Seq<(Seq<char>, VarView)>)>::empty());
        r
    }

    fn find_var(&self, key: &str) -> (r: Option<usize>)
        requires
            self.wf(),
        ensures
            match r {
                Some(i) => key_pos(self.vars(), key@) == Some(i as int),
                None => key_pos(self.vars(), key@) is None,
            },
    {
        find_key(&self.variables, key)
    }

    /// Register a state variable definition; the variable starts at its default
    /// value. Registering a name again replaces its definition and value.
    pub fn register(&mut self, def: StateSchema<S>)
        requires
            old(self).wf(),
        ensures
            final(self).wf(),
            final(self).instances() == old(self).instances(),
            ({
                let k = def.name.wire_name();
                let nv = VarView { value: def.default@, has_changes: false };
                match key_pos(old(self).vars(), k) {
                    Some(i) => final(self).vars() == old(self).vars().update(i, (k, nv))
                        && final(self).schema_seq() == old(self).schema_seq().update(i, def),
                    None => final(self).vars() == old(self).vars().push((k, nv))
                        && final(self).schema_seq() == old(self).schema_seq().push(def),
                }
            }),
    {
        let key = to_owned_string(def.name.as_str());
        let var = StateVariable::new(def.default.duplicate());
        let ghost k = def.name.wire_name();
        let ghost nv = var@;
        let ghost old_vars = self.vars();
        let ghost d = def;
        match self.find_var(key.as_str()) {
            Some(i) => {
                self.schema[i] = def;
                self.variables[i] = (key, var);
                assert(self.vars() =~= old_vars.update(i as int, (k, nv)));
            },
            None => {
                self.schema.push(def);
                self.variables.push((key, var));
                assert(self.vars() =~= old_vars.push((k, nv)));
            },
        }
        assert(self.instances() == old(self).instances());
    }

    /// Register multiple state variable definitions, in order.
    pub fn register_batch(&mut self, defs: Vec<StateSchema<S>>)
        requires
            old(self).wf(),
        ensures
            final(self).wf(),
            final(self).instances() == old(self).instances(),
            (final(self).schema_seq(), final(self).vars()) == register_all(
                (old(self).schema_seq(), old(self).vars()),
                defs@,
            ),
    {
        let mut defs = defs;
        let ghost all = defs@;
        let total = defs.len();
        let mut n: usize = 0;
        assert(all.subrange(0, 0) =~= Seq::<StateSchema<S>>::empty());
        while defs.len() > 0
            invariant
                all.len() == total,
                self.wf(),
                self.instances() == old(self).instances(),
                n + defs@.len() == all.len(),
                defs@ == all.subrange(n as int, all.len() as int),
                (self.schema_seq(), self.vars()) == register_all(
                    (old(self).schema_seq(), old(self).vars()),
                    all.subrange(0, n as int),
                ),
            decreases defs.len(),
        {
            let def = defs.remove(0);
            proof {
                assert(def == all[n as int]);
                assert(all.subrange(0, n + 1).drop_last() =~= all.subrange(0, n as int));
            }
            self.register(def);
            n = n + 1;
        }
        assert(all.subrange(0, all.len() as int) =~= all);
    }

    /// Replace the current value of a state variable without marking a change
    /// (ignored when the name is not registered or the value is of another
    /// data type than the variable's).
    pub fn replace_value(&mut self, name: S, value: DataType)
        requires
            old(self).wf(),
        ensures
            final(self).wf(),
            final(self).schema_seq() == old(self).schema_seq(),
            final(self).instances() == old(self).instances(),
            final(self).vars() == match key_pos(old(self).vars(), name.wire_name()) {
                Some(i) => if same_kind(old(self).schema_seq()[i].default@, value@) {
                    old(self).vars().update(
                        i,
                        (name.wire_name(), VarView { value: value@, has_changes: old(self).vars()[i].1.has_changes }),
                    )
                } else {
                    old(self).vars()
                },
                None => old(self).vars(),
            },
    {
        let ghost old_vars = self.vars();
        match self.find_var(name.as_str()) {
            Some(i) => {
                if !same_data_kind(&self.schema[i].default, &value) {
                    return;
                }
                let changed = self.variables[i].1.has_changes;
                self.variables[i].1 = StateVariable { current_value: value, has_changes: changed };
                assert(self.vars() =~= old_vars.update(
                    i as int,
                    (name.wire_name(), VarView { value: value@, has_changes: changed }),
                ));
                assert forall|a: int, b: int| 0 <= a < self.vars().len() && 0 <= b < self.vars().len() && a != b implies #[trigger] self.vars()[a].0 != #[trigger] self.vars()[b].0 by {
                    assert(old_vars[a].0 != old_vars[b].0);
                }
                assert forall|j: int| 0 <= j < self.schema@.len() implies #[trigger] self.variables@[j].0@ == self.schema@[j].name.wire_name() by {
                    assert(self.vars()[j].0 == old_vars[j].0);
                }
            },
            None => {},
        }
        assert(self.instances() == old(self).instances());
    }

    /// Get the current value of a state variable.
    pub fn get(&self, name: S) -> (r: Result<&DataType, Error>)
        requires
            self.wf(),
        ensures
            match key_pos(self.vars(), name.wire_name()) {
                Some(i) => r matches Ok(v) && v@ == self.vars()[i].1.value,
                None => r == Err::<&DataType, Error>(Error::ArgumentValueInvalid),
            },
    {
        match self.find_var(name.as_str()) {
            Some(i) => Ok(&self.variables[i].1.current_value),
            None => Err(Error::ArgumentValueInvalid),
        }
    }

    /// Get a copy of the current value of a state variable.
    pub fn get_owned(&self, name: S) -> (r: Result<DataType, Error>)
        requires
            self.wf(),
        ensures
            match key_pos(self.vars(), name.wire_name()) {
                Some(i) => r matches Ok(v) && v@ == self.vars()[i].1.value,
                None => r == Err::<DataType, Error>(Error::ArgumentValueInvalid),
            },
    {
        match self.find_var(name.as_str()) {
            Some(i) => Ok(self.variables[i].1.current_value.duplicate()),
            None => Err(Error::ArgumentValueInvalid),
        }
    }

    /// Get the definition of a state variable by name (string).
    pub fn schema(&self, name: &str) -> (r: Option<&StateSchema<S>>)
        requires
            self.wf(),
        ensures
            match key_pos(self.vars(), name@) {
                Some(i) => r == Some(&self.schema_seq()[i]),
                None => r is None,
            },
    {
        match self.find_var(name) {
            Some(i) => Some(&self.schema[i]),
            None => None,
        }
    }

    /// Get a state variable by name, to update it in place. The store keeps its
    /// names: only the variable behind the reference can change.
    pub fn get_mut(&mut self, name: S) -> (r: Option<&mut StateVariable>)
        requires
            old(self).wf(),
        ensures
            match key_pos(old(self).vars(), name.wire_name()) {
                Some(i) => (r matches Some(v) && (*v)@ == old(self).vars()[i].1
                    && final(self).vars() == old(self).vars().update(i, (name.wire_name(), (*final(v))@))
                    && final(self).schema_seq() == old(self).schema_seq()
                    && final(self).instances() == old(self).instances() && final(self).wf()),
                None => r is None && *final(self) == *old(self),
            },
    {
        match self.find_var(name.as_str()) {
            Some(i) => {
                let ghost before = self.variables@;
                proof {
                    lemma_key_pos(self.vars(), name.wire_name(), i as int);
                }
                let r = var_at(&mut self.variables, i);
                proof {
                    lemma_entries_update(before, i as int, *final(r));
                }
                Some(r)
            },
            None => None,
        }
    }

    /// Get the definition of a state variable by name, to update it in place.
    /// The store stays well formed when the definition keeps its name.
    pub fn schema_mut(&mut self, name: &str) -> (r: Option<&mut StateSchema<S>>)
        requires
            old(self).wf(),
        ensures
            match key_pos(old(self).vars(), name@) {
                Some(i) => (r matches Some(d) && *d == old(self).schema_seq()[i]
                    && final(self).schema_seq() == old(self).schema_seq().update(i, *final(d))
                    && final(self).vars() == old(self).vars()
                    && final(self).instances() == old(self).instances()
                    && ((*final(d)).name == (*d).name ==> final(self).wf())),
                None => r is None && *final(self) == *old(self),
            },
    {
        match self.find_var(name) {
            Some(i) => {
                let r = schema_at(&mut self.schema, i);
                Some(r)
            },
            None => None,
        }
    }

    /// Get a copy of a state variable by name.
    pub fn get_mut_owned(&self, name: S) -> (r: Option<StateVariable>)
        requires
            self.wf(),
        ensures
            match key_pos(self.vars(), name.wire_name()) {
                Some(i) => r matches Some(v) && v@ == self.vars()[i].1,
                None => r is None,
            },
    {
        match self.find_var(name.as_str()) {
            Some(i) => Some(self.variables[i].1.clone()),
            None => None,
        }
    }

    /// Set a state variable value, checked against the schema: ignored when the
    /// name is not registered or the value is of another data type than the
    /// default of the name's definition.
    pub fn set(&mut self, name: S, value: DataType)
        requires
            old(self).wf(),
        ensures
            final(self).wf(),
            final(self).schema_seq() == old(self).schema_seq(),
            final(self).instances() == old(self).instances(),
            final(self).vars() == checked_write(old(self).schema_seq(), old(self).vars(), name.wire_name(), value@),
    {
        let ghost old_vars = self.vars();
        let ghost x = value@;
        match self.find_var(name.as_str()) {
            Some(i) => {
                if !same_data_kind(&self.schema[i].default, &value) {
                    return;
                }
                self.variables[i].1.set(value);
                assert(self.vars() =~= write_entry(old_vars, name.wire_name(), x));
            },
            None => {},
        }
        assert(self.instances() == old(self).instances());
    }

    /// Set multiple state variables, in order.
    pub fn set_batch(&mut self, pairs: Vec<(S, DataType)>)
        requires
            old(self).wf(),
        ensures
            final(self).wf(),
            final(self).schema_seq() == old(self).schema_seq(),
            final(self).instances() == old(self).instances(),
            final(self).vars() == write_all(old(self).schema_seq(), old(self).vars(), pairs@),
    {
        let mut pairs = pairs;
        let ghost all = pairs@;
        let total = pairs.len();
        let mut n: usize = 0;
        while pairs.len() > 0
            invariant
                all.len() == total,
                self.wf(),
                self.schema_seq() == old(self).schema_seq(),
                self.instances() == old(self).instances(),
                n + pairs@.len() == all.len(),
                pairs@ == all.subrange(n as int, all.len() as int),
                self.vars() == write_all(old(self).schema_seq(), old(self).vars(), all.subrange(0, n as int)),
            decreases pairs.len(),
        {
            let (name, value) = pairs.remove(0);
            self.set(name, value);
            assert(all.subrange(0, n + 1).drop_last() =~= all.subrange(0, n as int));
            n = n + 1;
        }
        assert(all.subrange(0, n as int) =~= all);
    }

    /// All evented state variables with their current values: the (name, value
    /// text) pairs of the variables that are evented directly or via LastChange.
    pub fn collect_evented(&self) -> (r: Vec<(String, String)>)
        requires
            self.wf(),
        ensures
            crate::types::upnp::pairs_view(r@) == evented_pairs(self.schema_seq(), self.vars(), false),
    {
        self.collect_pairs(false)
    }

    /// All evented variables that have pending changes.
    pub fn collect_changed_evented(&self) -> (r: Vec<(String, String)>)
        requires
            self.wf(),
        ensures
            crate::types::upnp::pairs_view(r@) == evented_pairs(self.schema_seq(), self.vars(), true),
    {
        self.collect_pairs(true)
    }

    fn collect_pairs(&self, changed_only: bool) -> (r: Vec<(String, String)>)
        requires
            self.wf(),
        ensures
            crate::types::upnp::pairs_view(r@) == evented_pairs(self.schema_seq(), self.vars(), changed_only),
    {
        let mut r: Vec<(String, String)> = Vec::new();
        let mut i: usize = 0;
        while i < self.variables.len()
            invariant
                self.wf(),
                i <= self.variables@.len(),
                crate::types::upnp::pairs_view(r@) == evented_pairs(
                    self.schema_seq().subrange(0, i as int),
                    self.vars().subrange(0, i as int),
                    changed_only,
                ),
            decreases self.variables.len() - i,
        {
            let ghost prev = r@;
            let d = &self.schema[i];
            let v = &self.variables[i];
            proof {
                assert(self.schema_seq().subrange(0, i + 1).drop_last() =~= self.schema_seq().subrange(0, i as int));
                assert(self.vars().subrange(0, i + 1).drop_last() =~= self.vars().subrange(0, i as int));
            }
            if (d.name.is_evented() || d.name.via_lastchange()) && (!changed_only || v.1.has_changes) {
                let item = (v.0.clone(), v.1.current_value.as_value_str());
                r.push(item);
                assert(crate::types::upnp::pairs_view(r@) =~= crate::types::upnp::pairs_view(prev).push((v.0@, value_text(v.1.current_value@))));
            }
            i = i + 1;
        }
        proof {
            assert(self.schema_seq().subrange(0, i as int) =~= self.schema_seq());
            assert(self.vars().subrange(0, i as int) =~= self.vars());
        }
        r
    }

    /// Clear has_changes on all global variables (called after eventing).
    pub fn clear_all_changes(&mut self)
        requires
            old(self).wf(),
        ensures
            final(self).wf(),
            final(self).schema_seq() == old(self).schema_seq(),
            final(self).instances() == old(self).instances(),
            final(self).vars() == cleared(old(self).vars()),
    {
        let ghost old_vars = self.vars();
        let mut i: usize = 0;
        while i < self.variables.len()
            invariant
                old_vars == old(self).vars(),
                self.schema_seq() == old(self).schema_seq(),
                self.instances() == old(self).instances(),
                self.variables@.len() == old_vars.len(),
                i <= old_vars.len(),
                forall|j: int| 0 <= j < i ==> #[trigger] self.vars()[j] == cleared(old_vars)[j],
                forall|j: int| i <= j < old_vars.len() ==> #[trigger] self.vars()[j] == old_vars[j],
            decreases self.variables.len() - i,
        {
            let ghost prev = self.vars();
            assert(prev[i as int] == old_vars[i as int]);
            self.variables[i].1.has_changes = false;
            assert(self.vars() =~= prev.update(i as int, cleared(old_vars)[i as int]));
            i = i + 1;
        }
        assert(self.vars() =~= cleared(old_vars));
        assert forall|a: int, b: int| 0 <= a < self.vars().len() && 0 <= b < self.vars().len() && a != b implies #[trigger] self.vars()[a].0 != #[trigger] self.vars()[b].0 by {
            assert(old_vars[a].0 != old_vars[b].0);
        }
        assert forall|j: int| 0 <= j < self.schema@.len() implies #[trigger] self.variables@[j].0@ == self.schema@[j].name.wire_name() by {
            assert(self.vars()[j].0 == old_vars[j].0);
        }
    }

    /// The value instance `id` reads for `name`: its own copy when it holds
    /// one, else the global value.
    pub open spec fn instance_value(&self, name: Seq<char>, id: u32) -> Option<DataValue> {
        match self.instance(id) {
            Some(iv) if key_pos(iv, name) is Some => Some(iv[key_pos(iv, name)->0].1.value),
            _ => match key_pos(self.vars(), name) {
                Some(i) => Some(self.vars()[i].1.value),
                None => None,
            },
        }
    }

    /// The instances after making sure instance `id` exists: a new instance gets
    /// one variable per instance-scoped definition, at its default value.
    pub open spec fn with_instance(&self, id: u32) -> Seq<(u32, Seq<(Seq<char>, VarView)>)> {
        if id_pos(self.instances(), id) is Some {
            self.instances()
        } else {
            self.instances().push((id, instance_defaults(self.schema_seq())))
        }
    }

    fn find_instance(&self, id: u32) -> (r: Option<usize>)
        requires
            self.wf(),
        ensures
            match r {
                Some(i) => id_pos(self.instances(), id) == Some(i as int),
                None => id_pos(self.instances(), id) is None,
            },
    {
        let mut i: usize = 0;
        while i < self.instance_states.len()
            invariant
                self.wf(),
                i <= self.instance_states@.len(),
                forall|j: int| 0 <= j < i ==> #[trigger] self.instances()[j].0 != id,
            decreases self.instance_states.len() - i,
        {
            if self.instance_states[i].0 == id {
                proof {
                    lemma_id_pos(self.instances(), id, i as int);
                }
                return Some(i);
            }
            i = i + 1;
        }
        None
    }

    /// Get the current value of an instance-scoped state variable for a specific
    /// InstanceID, falling back to the global (InstanceID=0) value.
    pub fn get_instance(&self, name: S, instance_id: u32) -> (r: Result<&DataType, Error>)
        requires
            self.wf(),
        ensures
            match self.instance_value(name.wire_name(), instance_id) {
                Some(x) => r matches Ok(v) && v@ == x,
                None => r == Err::<&DataType, Error>(Error::ArgumentValueInvalid),
            },
    {
        let key = name.as_str();
        if let Some(p) = self.find_instance(instance_id) {
            proof {
                assert(unique_keys(self.instances()[p as int].1));
            }
            if let Some(k) = find_key(&self.instance_states[p].1, key) {
                return Ok(&self.instance_states[p].1[k].1.current_value);
            }
        }
        match self.find_var(key) {
            Some(i) => Ok(&self.variables[i].1.current_value),
            None => Err(Error::ArgumentValueInvalid),
        }
    }

    /// Get an instance-scoped state variable of instance `instance_id`, to
    /// update it in place, creating the instance if it does not exist. Names
    /// the instance does not hold give `None`.
    pub fn get_instance_mut(&mut self, name: S, instance_id: u32) -> (r: Option<&mut StateVariable>)
        requires
            old(self).wf(),
        ensures
            final(self).schema_seq() == old(self).schema_seq(),
            final(self).vars() == old(self).vars(),
            ({
                let base = old(self).with_instance(instance_id);
                let p = id_pos(base, instance_id)->0;
                match key_pos(base[p].1, name.wire_name()) {
                    Some(k) => (r matches Some(v) && (*v)@ == base[p].1[k].1
                        && final(self).instances() == base.update(
                        p,
                        (instance_id, base[p].1.update(k, (name.wire_name(), (*final(v))@))),
                    ) && final(self).wf()),
                    None => r is None && final(self).instances() == base && final(self).wf(),
                }
            }),
    {
        self.create_instance(instance_id);
        let ghost base = self.instances();
        let p = match self.find_instance(instance_id) {
            Some(p) => p,
            None => {
                proof {
                    lemma_with_instance_has(old(self).instances(), instance_id, instance_defaults(old(self).schema_seq()));
                }
                return None;
            },
        };
        proof {
            assert(unique_keys(base[p as int].1));
            assert(base[p as int].1 == entries_view(self.instance_states@[p as int].1@));
        }
        match find_key(&self.instance_states[p].1, name.as_str()) {
            Some(k) => {
                let ghost before = self.instance_states@;
                proof {
                    assert(base[p as int].1[k as int].0 == name.wire_name());
                }
                let r = instance_var_at(&mut self.instance_states, p, k);
                proof {
                    lemma_instance_entry_update(before, p as int, k as int, *final(r));
                    lemma_keys_after_update(base[p as int].1, k as int, (*final(r))@);
                }
                Some(r)
            },
            None => None,
        }
    }

    /// Create a new instance with all instance-scoped state variables initialized
    /// to their defaults (nothing happens when the instance exists).
    pub fn create_instance(&mut self, instance_id: u32)
        requires
            old(self).wf(),
        ensures
            final(self).wf(),
            final(self).schema_seq() == old(self).schema_seq(),
            final(self).vars() == old(self).vars(),
            final(self).instances() == old(self).with_instance(instance_id),
    {
        if self.find_instance(instance_id).is_some() {
            return;
        }
        let mut list: Vec<(String, StateVariable)> = Vec::new();
        let mut i: usize = 0;
        while i < self.schema.len()
            invariant
                self.wf(),
                self.schema_seq() == old(self).schema_seq(),
                self.vars() == old(self).vars(),
                self.instances() == old(self).instances(),
                i <= self.schema@.len(),
                entries_view(list@) == instance_defaults(self.schema_seq().subrange(0, i as int)),
            decreases self.schema.len() - i,
        {
            let ghost prev = entries_view(list@);
            let d = &self.schema[i];
            assert(self.schema_seq().subrange(0, i + 1).drop_last() =~= self.schema_seq().subrange(0, i as int));
            if d.name.is_instance_scoped() {
                let key = to_owned_string(d.name.as_str());
                let var = StateVariable::new(d.default.duplicate());
                list.push((key, var));
                assert(entries_view(list@) =~= prev.push((d.name.wire_name(), VarView { value: d.default@, has_changes: false })));
            }
            i = i + 1;
        }
        assert(self.schema_seq().subrange(0, i as int) =~= self.schema_seq());
        proof {
            lemma_instance_defaults_keys(self.schema_seq(), self.vars());
        }
        let ghost before = self.instances();
        let ghost lv = entries_view(list@);
        self.instance_states.push((instance_id, list));
        assert(self.instances() =~= before.push((instance_id, lv)));
        assert(self.vars() == old(self).vars());
    }

    /// Remove an instance and all its state variables.
    pub fn remove_instance(&mut self, instance_id: u32)
        requires
            old(self).wf(),
        ensures
            final(self).wf(),
            final(self).schema_seq() == old(self).schema_seq(),
            final(self).vars() == old(self).vars(),
            match id_pos(old(self).instances(), instance_id) {
                Some(p) => final(self).instances() == old(self).instances().remove(p),
                None => final(self).instances() == old(self).instances(),
            },
            id_pos(final(self).instances(), instance_id) is None,
    {
        if let Some(p) = self.find_instance(instance_id) {
            let ghost before = self.instances();
            let _ = self.instance_states.remove(p);
            assert(self.instances() =~= before.remove(p as int));
            assert forall|a: int, b: int| 0 <= a < self.instances().len() && 0 <= b < self.instances().len() && a != b implies #[trigger] self.instances()[a].0 != #[trigger] self.instances()[b].0 by {
                let a2 = if a < p { a } else { a + 1 };
                let b2 = if b < p { b } else { b + 1 };
                assert(before[a2].0 != before[b2].0);
            }
            assert forall|i: int| 0 <= i < self.instances().len() implies unique_keys(#[trigger] self.instances()[i].1) by {
                let i2 = if i < p { i } else { i + 1 };
                assert(unique_keys(before[i2].1));
            }
            assert forall|j: int| 0 <= j < self.instances().len() implies #[trigger] self.instances()[j].0 != instance_id by {
                let j2 = if j < p { j } else { j + 1 };
                if j2 != p {
                    assert(before[j2].0 != before[p as int].0);
                }
            }
        }
    }

    /// Set an instance-scoped state variable value, creating the instance if it
    /// does not exist. Names the instance does not hold are ignored.
    pub fn set_instance(&mut self, name: S, instance_id: u32, value: DataType)
        requires
            old(self).wf(),
        ensures
            final(self).wf(),
            final(self).schema_seq() == old(self).schema_seq(),
            final(self).vars() == old(self).vars(),
            ({
                let base = old(self).with_instance(instance_id);
                let p = id_pos(base, instance_id)->0;
                final(self).instances() == base.update(
                    p,
                    (
                        instance_id,
                        if accepts(old(self).schema_seq(), old(self).vars(), name.wire_name(), value@) {
                            write_entry(base[p].1, name.wire_name(), value@)
                        } else {
                            base[p].1
                        },
                    ),
                )
            }),
    {
        let accepted = match self.find_var(name.as_str()) {
            Some(i) => same_data_kind(&self.schema[i].default, &value),
            None => false,
        };
        self.create_instance(instance_id);
        let ghost base = self.instances();
        let p = match self.find_instance(instance_id) {
            Some(p) => p,
            None => {
                proof {
                    lemma_with_instance_has(old(self).instances(), instance_id, instance_defaults(old(self).schema_seq()));
                }
                return;
            },
        };
        proof {
            assert(unique_keys(base[p as int].1));
        }
        let (iid, mut list) = self.instance_states.remove(p);
        let ghost lv = entries_view(list@);
        assert(lv == base[p as int].1);
        match find_key(&list, name.as_str()) {
            Some(k) => {
                let (key, mut var) = list.remove(k);
                if accepted {
                    var.set(value);
                    list.insert(k, (key, var));
                    assert(entries_view(list@) =~= write_entry(lv, name.wire_name(), value@));
                } else {
                    list.insert(k, (key, var));
                    assert(entries_view(list@) =~= lv);
                }
            },
            None => {},
        }
        let ghost nl = entries_view(list@);
        self.instance_states.insert(p, (iid, list));
        proof {
            assert(self.instances() =~= base.update(p as int, (instance_id, nl)));
            lemma_write_entry_keys(lv, name.wire_name(), value@);
            assert forall|a: int, b: int| 0 <= a < self.instances().len() && 0 <= b < self.instances().len() && a != b implies #[trigger] self.instances()[a].0 != #[trigger] self.instances()[b].0 by {
                assert(base[a].0 != base[b].0);
            }
            assert forall|i: int| 0 <= i < self.instances().len() implies unique_keys(#[trigger] self.instances()[i].1) by {
                if i != p {
                    assert(unique_keys(base[i].1));
                }
            }
        }
    }

    /// Set a state variable the way a service does: in instance
    /// `instance_id`'s own copy when the variable is instance-scoped and the
    /// instance is not 0, else the global value (InstanceID 0 is the global
    /// instance).
    pub fn set_scoped(&mut self, name: S, instance_id: u32, value: DataType)
        requires
            old(self).wf(),
        ensures
            final(self).wf(),
            final(self).schema_seq() == old(self).schema_seq(),
            name.instance_scoped() && instance_id != 0 ==> final(self).vars() == old(self).vars() && ({
                let base = old(self).with_instance(instance_id);
                let p = id_pos(base, instance_id)->0;
                final(self).instances() == base.update(
                    p,
                    (
                        instance_id,
                        if accepts(old(self).schema_seq(), old(self).vars(), name.wire_name(), value@) {
                            write_entry(base[p].1, name.wire_name(), value@)
                        } else {
                            base[p].1
                        },
                    ),
                )
            }),
            !name.instance_scoped() || instance_id == 0 ==> final(self).instances() == old(self).instances()
                && final(self).vars() == checked_write(old(self).schema_seq(), old(self).vars(), name.wire_name(), value@),
            scoped_write(*old(self), *final(self), name, instance_id, value@),
    {
        if name.is_instance_scoped() && instance_id != 0 {
            self.set_instance(name, instance_id, value);
        } else {
            self.set(name, value);
        }
    }

    /// Set multiple instance-scoped state variables, in order.
    pub fn set_instance_batch(&mut self, instance_id: u32, pairs: Vec<(S, DataType)>)
        requires
            old(self).wf(),
        ensures
            final(self).wf(),
            final(self).schema_seq() == old(self).schema_seq(),
            final(self).vars() == old(self).vars(),
            id_pos(final(self).instances(), instance_id) is Some,
    {
        self.create_instance(instance_id);
        proof {
            lemma_with_instance_has(old(self).instances(), instance_id, instance_defaults(old(self).schema_seq()));
        }
        let mut pairs = pairs;
        let total = pairs.len();
        let mut n: usize = 0;
        while pairs.len() > 0
            invariant
                self.wf(),
                self.schema_seq() == old(self).schema_seq(),
                self.vars() == old(self).vars(),
                id_pos(self.instances(), instance_id) is Some,
                n + pairs@.len() == total,
            decreases pairs.len(),
        {
            let (name, value) = pairs.remove(0);
            let ghost base = self.instances();
            let ghost p = id_pos(base, instance_id)->0;
            assert(base[p].0 == instance_id);
            self.set_instance(name, instance_id, value);
            assert(self.instances()[p].0 == instance_id);
            n = n + 1;
        }
    }

    fn collect_pairs_for(&self, instance_id: u32, changed_only: bool) -> (r: Vec<(String, String)>)
        requires
            self.wf(),
        ensures
            crate::types::upnp::pairs_view(r@) == evented_pairs_for(
                self.schema_seq(),
                self.vars(),
                self.instance(instance_id),
                changed_only,
            ),
    {
        let pos = self.find_instance(instance_id);
        let ghost inst = self.instance(instance_id);
        proof {
            if let Some(p) = pos {
                assert(unique_keys(self.instances()[p as int].1));
            }
        }
        let mut r: Vec<(String, String)> = Vec::new();
        let mut i: usize = 0;
        while i < self.schema.len()
            invariant
                self.wf(),
                inst == self.instance(instance_id),
                match pos {
                    Some(p) => id_pos(self.instances(), instance_id) == Some(p as int) && unique_keys(self.instances()[p as int].1),
                    None => id_pos(self.instances(), instance_id) is None,
                },
                i <= self.schema@.len(),
                crate::types::upnp::pairs_view(r@) == evented_pairs_for(
                    self.schema_seq().subrange(0, i as int),
                    self.vars().subrange(0, i as int),
                    inst,
                    changed_only,
                ),
            decreases self.schema.len() - i,
        {
            let ghost prev = r@;
            let d = &self.schema[i];
            let g = &self.variables[i];
            proof {
                assert(self.schema_seq().subrange(0, i + 1).drop_last() =~= self.schema_seq().subrange(0, i as int));
                assert(self.vars().subrange(0, i + 1).drop_last() =~= self.vars().subrange(0, i as int));
            }
            if d.name.is_evented() || d.name.via_lastchange() {
                let mut var: &StateVariable = &g.1;
                if d.name.is_instance_scoped() {
                    if let Some(p) = pos {
                        if let Some(k) = find_key(&self.instance_states[p].1, g.0.as_str()) {
                            var = &self.instance_states[p].1[k].1;
                        }
                    }
                }
                assert(var@ == instance_var(*d, self.vars()[i as int], inst));
                if !changed_only || var.has_changes {
                    let item = (g.0.clone(), var.current_value.as_value_str());
                    r.push(item);
                    assert(crate::types::upnp::pairs_view(r@) =~= crate::types::upnp::pairs_view(prev).push((g.0@, value_text(var.current_value@))));
                }
            }
            i = i + 1;
        }
        proof {
            assert(self.schema_seq().subrange(0, i as int) =~= self.schema_seq());
            assert(self.vars().subrange(0, i as int) =~= self.vars());
        }
        r
    }

    /// All evented state variables as seen by instance `instance_id`: its own
    /// copy of the instance-scoped ones when it holds one, else the global values.
    pub fn collect_evented_for_instance(&self, instance_id: u32) -> (r: Vec<(String, String)>)
        requires
            self.wf(),
        ensures
            crate::types::upnp::pairs_view(r@) == evented_pairs_for(
                self.schema_seq(),
                self.vars(),
                self.instance(instance_id),
                false,
            ),
    {
        self.collect_pairs_for(instance_id, false)
    }

    /// All evented variables with pending changes, as seen by instance
    /// `instance_id`.
    pub fn collect_changed_evented_for_instance(&self, instance_id: u32) -> (r: Vec<(String, String)>)
        requires
            self.wf(),
        ensures
            crate::types::upnp::pairs_view(r@) == evented_pairs_for(
                self.schema_seq(),
                self.vars(),
                self.instance(instance_id),
                true,
            ),
    {
        self.collect_pairs_for(instance_id, true)
    }

    /// Clear has_changes on all variables of an instance (called after eventing).
    pub fn clear_instance_changes(&mut self, instance_id: u32)
        requires
            old(self).wf(),
        ensures
            final(self).wf(),
            final(self).schema_seq() == old(self).schema_seq(),
            final(self).vars() == old(self).vars(),
            match id_pos(old(self).instances(), instance_id) {
                Some(p) => final(self).instances() == old(self).instances().update(
                    p,
                    (instance_id, cleared(old(self).instances()[p].1)),
                ),
                None => final(self).instances() == old(self).instances(),
            },
    {
        if let Some(p) = self.find_instance(instance_id) {
            let ghost base = self.instances();
            let (iid, mut list) = self.instance_states.remove(p);
            let ghost lv = entries_view(list@);
            let mut i: usize = 0;
            while i < list.len()
                invariant
                    list@.len() == lv.len(),
                    i <= lv.len(),
                    forall|j: int| 0 <= j < i ==> #[trigger] entries_view(list@)[j] == cleared(lv)[j],
                    forall|j: int| i <= j < lv.len() ==> #[trigger] entries_view(list@)[j] == lv[j],
                decreases list.len() - i,
            {
                let ghost prev = entries_view(list@);
                assert(prev[i as int] == lv[i as int]);
                list[i].1.has_changes = false;
                assert(entries_view(list@) =~= prev.update(i as int, cleared(lv)[i as int]));
                i = i + 1;
            }
            assert(entries_view(list@) =~= cleared(lv));
            let ghost nl = entries_view(list@);
            self.instance_states.insert(p, (iid, list));
            proof {
                assert(self.instances() =~= base.update(p as int, (instance_id, nl)));
                assert(unique_keys(base[p as int].1));
                assert forall|a: int, b: int| 0 <= a < nl.len() && 0 <= b < nl.len() && a != b implies #[trigger] nl[a].0 != #[trigger] nl[b].0 by {
                    assert(lv[a].0 != lv[b].0);
                }
                assert forall|a: int, b: int| 0 <= a < self.instances().len() && 0 <= b < self.instances().len() && a != b implies #[trigger] self.instances()[a].0 != #[trigger] self.instances()[b].0 by {
                    assert(base[a].0 != base[b].0);
                }
                assert forall|k: int| 0 <= k < self.instances().len() implies unique_keys(#[trigger] self.instances()[k].1) by {
                    if k != p {
                        assert(unique_keys(base[k].1));
                    }
                }
            }
        }
    }

    /// Get all instance IDs that have been created, in creation order.
    pub fn instance_ids(&self) -> (r: Vec<u32>)
        ensures
            r@.len() == self.instances().len(),
            forall|i: int| 0 <= i < r@.len() ==> #[trigger] r@[i] == self.instances()[i].0,
    {
        let mut r: Vec<u32> = Vec::new();
        let mut i: usize = 0;
        while i < self.instance_states.len()
            invariant
                i <= self.instance_states@.len(),
                r@.len() == i,
                forall|j: int| 0 <= j < i ==> #[trigger] r@[j] == self.instances()[j].0,
            decreases self.instance_states.len() - i,
        {
            r.push(self.instance_states[i].0);
            i = i + 1;
        }
        r
    }

    /// Check if an instance exists.
    pub fn has_instance(&self, instance_id: u32) -> (r: bool)
        requires
            self.wf(),
        ensures
            r == (id_pos(self.instances(), instance_id) is Some),
    {
        self.find_instance(instance_id).is_some()
    }

    /// Get the number of active instances.
    pub fn instance_count(&self) -> (r: usize)
        ensures
            r == self.instances().len(),
    {
        self.instance_states.len()
    }

    /// The registered definitions, in registration order (for SCPD generation).
    pub fn schemas(&self) -> (r: &[StateSchema<S>])
        ensures
            r@ == self.schema_seq(),
    {
        self.schema.as_slice()
    }

    /// Get all variable names (for SCPD generation), in registration order.
    pub fn names(&self) -> (r: Vec<String>)
        ensures
            r@.len() == self.vars().len(),
            forall|i: int| 0 <= i < r@.len() ==> #[trigger] r@[i]@ == self.vars()[i].0,
            self.wf() ==> r@.map_values(|s: String| s@) == schema_names(self.schema_seq()),
    {
        let mut r: Vec<String> = Vec::new();
        let mut i: usize = 0;
        while i < self.variables.len()
            invariant
                i <= self.variables@.len(),
                r@.len() == i,
                forall|j: int| 0 <= j < i ==> #[trigger] r@[j]@ == self.vars()[j].0,
            decreases self.variables.len() - i,
        {
            r.push(self.variables[i].0.clone());
            i = i + 1;
        }
        proof {
            if self.wf() {
                assert(r@.map_values(|s: String| s@) =~= schema_names(self.schema_seq()));
            }
        }
        r
    }
}

/// The variable at position `i` of a list of named variables, to update in
/// place; its name stays.
fn var_at(list: &mut Vec<(String, StateVariable)>, i: usize) -> (r: &mut StateVariable)
    requires
        i < old(list)@.len(),
    ensures
        *r == old(list)@[i as int].1,
        final(list)@ == old(list)@.update(i as int, (old(list)@[i as int].0, *final(r))),
{
    &mut list[i].1
}

proof fn lemma_entries_update(l: Seq<(String, StateVariable)>, i: int, v: StateVariable)
    requires
        0 <= i < l.len(),
    ensures
        entries_view(l.update(i, (l[i].0, v))) == entries_view(l).update(i, (l[i].0@, v@)),
{
    assert(entries_view(l.update(i, (l[i].0, v))) =~= entries_view(l).update(i, (l[i].0@, v@)));
}

/// The definition at position `i`, to update in place.
fn schema_at<S>(list: &mut Vec<StateSchema<S>>, i: usize) -> (r: &mut StateSchema<S>)
    requires
        i < old(list)@.len(),
    ensures
        *r == old(list)@[i as int],
        final(list)@ == old(list)@.update(i as int, *final(r)),
{
    &mut list[i]
}

/// The variable at position `k` of instance entry `p`, to update in place;
/// every name and every other entry stays.
fn instance_var_at(states: &mut Vec<(u32, Vec<(String, StateVariable)>)>, p: usize, k: usize) -> (r: &mut StateVariable)
    requires
        p < old(states)@.len(),
        k < old(states)@[p as int].1@.len(),
    ensures
        *r == old(states)@[p as int].1@[k as int].1,
        final(states)@.len() == old(states)@.len(),
        forall|j: int| 0 <= j < old(states)@.len() && j != p ==> #[trigger] final(states)@[j] == old(states)@[j],
        final(states)@[p as int].0 == old(states)@[p as int].0,
        final(states)@[p as int].1@ == old(states)@[p as int].1@.update(
            k as int,
            (old(states)@[p as int].1@[k as int].0, *final(r)),
        ),
{
    let entry = vec_entry_at(states, p);
    var_at(&mut entry.1, k)
}

fn vec_entry_at<T>(v: &mut Vec<T>, i: usize) -> (r: &mut T)
    requires
        i < old(v)@.len(),
    ensures
        *r == old(v)@[i as int],
        final(v)@ == old(v)@.update(i as int, *final(r)),
{
    &mut v[i]
}

proof fn lemma_instance_entry_update(
    old_states: Seq<(u32, Vec<(String, StateVariable)>)>,
    p: int,
    k: int,
    v: StateVariable,
)
    requires
        0 <= p < old_states.len(),
        0 <= k < old_states[p].1@.len(),
    ensures
        forall|new_states: Seq<(u32, Vec<(String, StateVariable)>)>|
            new_states.len() == old_states.len() && (forall|j: int|
                0 <= j < old_states.len() && j != p ==> #[trigger] new_states[j] == old_states[j])
                && new_states[p].0 == old_states[p].0 && new_states[p].1@ == old_states[p].1@.update(
                k,
                (old_states[p].1@[k].0, v),
            ) ==> #[trigger] instances_view(new_states) == instances_view(old_states).update(
                p,
                (old_states[p].0, entries_view(old_states[p].1@).update(k, (old_states[p].1@[k].0@, v@))),
            ),
{
    assert forall|new_states: Seq<(u32, Vec<(String, StateVariable)>)>|
        new_states.len() == old_states.len() && (forall|j: int|
            0 <= j < old_states.len() && j != p ==> #[trigger] new_states[j] == old_states[j])
            && new_states[p].0 == old_states[p].0 && new_states[p].1@ == old_states[p].1@.update(
            k,
            (old_states[p].1@[k].0, v),
        ) implies #[trigger] instances_view(new_states) == instances_view(old_states).update(
            p,
            (old_states[p].0, entries_view(old_states[p].1@).update(k, (old_states[p].1@[k].0@, v@))),
        ) by {
        lemma_entries_update(old_states[p].1@, k, v);
        assert(instances_view(new_states) =~= instances_view(old_states).update(
            p,
            (old_states[p].0, entries_view(old_states[p].1@).update(k, (old_states[p].1@[k].0@, v@))),
        ));
    }
}

/// Replacing the variable under one name keeps the names unique.
proof fn lemma_keys_after_update(vs: Seq<(Seq<char>, VarView)>, k: int, x: VarView)
    requires
        unique_keys(vs),
        0 <= k < vs.len(),
    ensures
        unique_keys(vs.update(k, (vs[k].0, x))),
{
    let n = vs.update(k, (vs[k].0, x));
    assert forall|a: int, b: int| 0 <= a < n.len() && 0 <= b < n.len() && a != b implies #[trigger] n[a].0
        != #[trigger] n[b].0 by {
        assert(n[a].0 == vs[a].0 && n[b].0 == vs[b].0);
    }
}

/// The position of `key` in a list of named variables with unique names.
fn find_key(list: &Vec<(String, StateVariable)>, key: &str) -> (r: Option<usize>)
    requires
        unique_keys(entries_view(list@)),
    ensures
        match r {
            Some(i) => key_pos(entries_view(list@), key@) == Some(i as int) && i < list@.len(),
            None => key_pos(entries_view(list@), key@) is None,
        },
{
    let mut i: usize = 0;
    while i < list.len()
        invariant
            unique_keys(entries_view(list@)),
            i <= list@.len(),
            forall|j: int| 0 <= j < i ==> #[trigger] entries_view(list@)[j].0 != key@,
        decreases list.len() - i,
    {
        if str_eq(list[i].0.as_str(), key) {
            proof {
                lemma_key_pos(entries_view(list@), key@, i as int);
            }
            return Some(i);
        }
        i = i + 1;
    }
    None
}

/// Writing a value keeps the names of a variable list.
proof fn lemma_write_entry_keys(vs: Seq<(Seq<char>, VarView)>, k: Seq<char>, x: DataValue)
    requires
        unique_keys(vs),
    ensures
        unique_keys(write_entry(vs, k, x)),
        write_entry(vs, k, x).len() == vs.len(),
        forall|i: int| 0 <= i < vs.len() ==> (#[trigger] write_entry(vs, k, x)[i]).0 == vs[i].0,
{
    if let Some(p) = key_pos(vs, k) {
        assert(vs[p].0 == k);
    }
    let w = write_entry(vs, k, x);
    assert forall|a: int, b: int| 0 <= a < w.len() && 0 <= b < w.len() && a != b implies #[trigger] w[a].0 != #[trigger] w[b].0 by {
        assert(w[a].0 == vs[a].0);
        assert(w[b].0 == vs[b].0);
    }
}

/// After `with_instance`, the instance exists.
proof fn lemma_with_instance_has(
    inst: Seq<(u32, Seq<(Seq<char>, VarView)>)>,
    id: u32,
    defaults: Seq<(Seq<char>, VarView)>,
)
    ensures
        id_pos(inst, id) is None ==> id_pos(inst.push((id, defaults)), id) is Some,
{
    if id_pos(inst, id) is None {
        assert(inst.push((id, defaults))[inst.len() as int].0 == id);
    }
}

/// The names of the variables of a new instance are names of definitions, and
/// are unique when the definitions' names are.
proof fn lemma_instance_defaults_keys<S: StateVariableName>(
    s: Seq<StateSchema<S>>,
    vars: Seq<(Seq<char>, VarView)>,
)
    requires
        s.len() == vars.len(),
        forall|i: int| 0 <= i < s.len() ==> #[trigger] vars[i].0 == s[i].name.wire_name(),
        unique_keys(vars),
    ensures
        unique_keys(instance_defaults(s)),
        forall|i: int|
            0 <= i < instance_defaults(s).len() ==> exists|j: int|
                0 <= j < s.len() && #[trigger] instance_defaults(s)[i].0 == s[j].name.wire_name(),
    decreases s.len(),
{
    if s.len() > 0 {
        let s2 = s.drop_last();
        let v2 = vars.drop_last();
        assert forall|i: int| 0 <= i < s2.len() implies #[trigger] v2[i].0 == s2[i].name.wire_name() by {
            assert(vars[i].0 == s[i].name.wire_name());
        }
        assert forall|a: int, b: int| 0 <= a < v2.len() && 0 <= b < v2.len() && a != b implies #[trigger] v2[a].0 != #[trigger] v2[b].0 by {
            assert(vars[a].0 != vars[b].0);
        }
        lemma_instance_defaults_keys(s2, v2);
        let rest = instance_defaults(s2);
        let d = s.last();
        if d.name.instance_scoped() {
            let all = instance_defaults(s);
            assert(all == rest.push((d.name.wire_name(), VarView { value: d.default@, has_changes: false })));
            let last = s.len() - 1;
            assert forall|i: int| 0 <= i < rest.len() implies #[trigger] rest[i].0 != d.name.wire_name() by {
                let j = choose|j: int| 0 <= j < s2.len() && #[trigger] rest[i].0 == s2[j].name.wire_name();
                assert(vars[j].0 != vars[last].0);
                assert(vars[j].0 == s[j].name.wire_name());
                assert(vars[last].0 == s[last].name.wire_name());
            }
            assert forall|a: int, b: int| 0 <= a < all.len() && 0 <= b < all.len() && a != b implies #[trigger] all[a].0 != #[trigger] all[b].0 by {
                if a < rest.len() && b < rest.len() {
                    assert(rest[a].0 != rest[b].0);
                } else if a < rest.len() {
                    assert(rest[a].0 != d.name.wire_name());
                } else {
                    assert(rest[b].0 != d.name.wire_name());
                }
            }
            assert forall|i: int| 0 <= i < all.len() implies exists|j: int| 0 <= j < s.len() && #[trigger] all[i].0 == s[j].name.wire_name() by {
                if i < rest.len() {
                    let j = choose|j: int| 0 <= j < s2.len() && #[trigger] rest[i].0 == s2[j].name.wire_name();
                    assert(all[i].0 == s[j].name.wire_name());
                } else {
                    assert(all[i].0 == s[last].name.wire_name());
                }
            }
        } else {
            assert forall|i: int| 0 <= i < rest.len() implies exists|j: int| 0 <= j < s.len() && #[trigger] rest[i].0 == s[j].name.wire_name() by {
                let j = choose|j: int| 0 <= j < s2.len() && #[trigger] rest[i].0 == s2[j].name.wire_name();
                assert(rest[i].0 == s[j].name.wire_name());
            }
        }
    }
}

/// Read after write: after writing `x` to a registered name, the name still
/// sits at the same place and holds `x`.
pub proof fn lemma_write_then_read(vs: Seq<(Seq<char>, VarView)>, k: Seq<char>, x: DataValue)
    requires
        unique_keys(vs),
        key_pos(vs, k) is Some,
    ensures
        key_pos(write_entry(vs, k, x), k) == key_pos(vs, k),
        write_entry(vs, k, x)[key_pos(vs, k)->0].1.value == x,
{
    let i = key_pos(vs, k)->0;
    assert(vs[i].0 == k);
    lemma_write_entry_keys(vs, k, x);
    lemma_key_pos(write_entry(vs, k, x), k, i);
}

/// Read after a checked write, in a well-formed store: when the definitions
/// accept `x` for `k`, `k` still sits at the same place and holds `x`; when
/// they refuse it, the variables stay as they were.
pub proof fn lemma_store_write_then_read<S: StateVariableName>(st: StateStore<S>, k: Seq<char>, x: DataValue)
    requires
        st.wf(),
    ensures
        accepts(st.schema_seq(), st.vars(), k, x) ==> key_pos(checked_write(st.schema_seq(), st.vars(), k, x), k)
            == key_pos(st.vars(), k) && checked_write(st.schema_seq(), st.vars(), k, x)[key_pos(
            st.vars(),
            k,
        )->0].1.value == x,
        !accepts(st.schema_seq(), st.vars(), k, x) ==> checked_write(st.schema_seq(), st.vars(), k, x) == st.vars(),
{
    st.lemma_wf_names();
    if accepts(st.schema_seq(), st.vars(), k, x) {
        lemma_write_then_read(st.vars(), k, x);
    }
}

/// `after` is `before` with `x` written to `name` as instance `id` sees it:
/// for an instance-scoped variable and a nonzero id, into the instance's own
/// copy (created at the defaults when it is missing), else into the global
/// variable; a value the definitions do not accept is not written.
pub open spec fn scoped_write<S: StateVariableName>(
    before: StateStore<S>,
    after: StateStore<S>,
    name: S,
    id: u32,
    x: DataValue,
) -> bool {
    &&& after.schema_seq() == before.schema_seq()
    &&& name.instance_scoped() && id != 0 ==> after.vars() == before.vars() && ({
        let base = before.with_instance(id);
        let p = id_pos(base, id)->0;
        after.instances() == base.update(
            p,
            (
                id,
                if accepts(before.schema_seq(), before.vars(), name.wire_name(), x) {
                    write_entry(base[p].1, name.wire_name(), x)
                } else {
                    base[p].1
                },
            ),
        )
    })
    &&& !name.instance_scoped() || id == 0 ==> after.instances() == before.instances() && after.vars()
        == checked_write(before.schema_seq(), before.vars(), name.wire_name(), x)
}

/// Whether instance `id`'s own copy, as a write finds or creates it, holds a
/// variable named `k`.
pub open spec fn copy_holds<S: StateVariableName>(st: StateStore<S>, id: u32, k: Seq<char>) -> bool {
    let base = st.with_instance(id);
    key_pos(base[id_pos(base, id)->0].1, k) is Some
}

/// Read after a scoped write of a value the variable accepts: a global write
/// leaves `x` in the variable and every other global variable and every
/// instance as it was; an instance write leaves the global variables as they
/// were, `x` in the instance's copy of the variable, and every other instance
/// as it was.
pub proof fn lemma_scoped_write_reads_back<S: StateVariableName>(
    before: StateStore<S>,
    after: StateStore<S>,
    name: S,
    id: u32,
    x: DataValue,
)
    requires
        before.wf(),
        after.wf(),
        scoped_write(before, after, name, id, x),
        accepts(before.schema_seq(), before.vars(), name.wire_name(), x),
    ensures
        !name.instance_scoped() || id == 0 ==> {
            &&& after.instances() == before.instances()
            &&& after.vars().len() == before.vars().len()
            &&& key_pos(after.vars(), name.wire_name()) == key_pos(before.vars(), name.wire_name())
            &&& after.vars()[key_pos(before.vars(), name.wire_name())->0].1.value == x
            &&& forall|j: int|
                0 <= j < before.vars().len() && before.vars()[j].0 != name.wire_name() ==> #[trigger] after.vars()[j]
                    == before.vars()[j]
        },
        name.instance_scoped() && id != 0 ==> {
            &&& after.vars() == before.vars()
            &&& after.instance(id) is Some
            &&& copy_holds(before, id, name.wire_name()) ==> (key_pos(after.instance(id)->0, name.wire_name()) matches Some(
                j,
            ) && after.instance(id)->0[j].1.value == x)
            &&& forall|other: u32| other != id ==> #[trigger] after.instance(other) == before.instance(other)
        },
{
    let k = name.wire_name();
    before.lemma_wf_names();
    after.lemma_wf_names();
    if !name.instance_scoped() || id == 0 {
        lemma_store_write_then_read(before, k, x);
        lemma_write_entry_keys(before.vars(), k, x);
        assert forall|j: int| 0 <= j < before.vars().len() && before.vars()[j].0 != k implies #[trigger] after.vars()[j]
            == before.vars()[j] by {
            lemma_write_other(before.vars(), k, x, j);
        }
    } else {
        let ins = before.instances();
        let base = before.with_instance(id);
        if id_pos(ins, id) is None {
            assert(base[ins.len() as int].0 == id);
        }
        let p = id_pos(base, id)->0;
        assert(base[p].0 == id);
        let a = after.instances();
        let copy = write_entry(base[p].1, k, x);
        assert(a[p] == (id, copy));
        lemma_id_pos(a, id, p);
        assert(after.instance(id) == Some(copy));
        if copy_holds(before, id, k) {
            let j = key_pos(base[p].1, k)->0;
            assert(base[p].1[j].0 == k);
            assert(copy[j] == (k, written(base[p].1[j].1, x)));
            assert(unique_keys(a[p].1));
            lemma_key_pos(copy, k, j);
        }
        assert forall|other: u32| other != id implies #[trigger] after.instance(other) == before.instance(other) by {
            match id_pos(ins, other) {
                Some(q) => {
                    assert(ins[q].0 == other);
                    assert(base[q] == ins[q]);
                    assert(q != p);
                    assert(a[q] == ins[q]);
                    lemma_id_pos(a, other, q);
                },
                None => {
                    assert forall|i: int| 0 <= i < a.len() implies #[trigger] a[i].0 != other by {
                        if i == p {
                        } else if i < ins.len() {
                            assert(a[i] == ins[i]);
                            assert(!(ins[i].0 == other));
                        } else {
                            assert(a[i] == base[i]);
                        }
                    }
                },
            }
        }
    }
}

/// Writing the value a variable already holds changes nothing: in particular
/// it does not mark the variable as changed.
pub proof fn lemma_write_same_value(vs: Seq<(Seq<char>, VarView)>, k: Seq<char>, x: DataValue)
    requires
        key_pos(vs, k) matches Some(i) && vs[i].1.value == x,
    ensures
        write_entry(vs, k, x) == vs,
{
    let i = key_pos(vs, k)->0;
    assert(vs[i].0 == k);
    assert(write_entry(vs, k, x) =~= vs);
}

/// Writing a different value marks the variable as changed.
pub proof fn lemma_write_new_value(vs: Seq<(Seq<char>, VarView)>, k: Seq<char>, x: DataValue)
    requires
        key_pos(vs, k) matches Some(i) && vs[i].1.value != x,
    ensures
        write_entry(vs, k, x)[key_pos(vs, k)->0].1 == (VarView { value: x, has_changes: true }),
{
}

/// Writing one name leaves every other name's variable as it was.
pub proof fn lemma_write_other(vs: Seq<(Seq<char>, VarView)>, k: Seq<char>, x: DataValue, j: int)
    requires
        0 <= j < vs.len(),
        vs[j].0 != k,
    ensures
        write_entry(vs, k, x)[j] == vs[j],
{
    if let Some(i) = key_pos(vs, k) {
        assert(vs[i].0 == k);
    }
}

/// Instance scoping: writing into one instance's variables leaves the ids
/// unique and every other instance, where it is and with its variables, as it
/// was.
pub proof fn lemma_instance_isolation(
    insts: Seq<(u32, Seq<(Seq<char>, VarView)>)>,
    id: u32,
    k: Seq<char>,
    x: DataValue,
    other: u32,
)
    requires
        unique_ids(insts),
        id_pos(insts, id) is Some,
        other != id,
    ensures
        ({
            let p = id_pos(insts, id)->0;
            let after = insts.update(p, (id, write_entry(insts[p].1, k, x)));
            &&& unique_ids(after)
            &&& id_pos(after, other) == id_pos(insts, other)
            &&& (id_pos(insts, other) matches Some(q) ==> after[q] == insts[q])
        }),
{
    let p = id_pos(insts, id)->0;
    assert(insts[p].0 == id);
    let after = insts.update(p, (id, write_entry(insts[p].1, k, x)));
    assert forall|a: int, b: int| 0 <= a < after.len() && 0 <= b < after.len() && a != b implies #[trigger] after[a].0
        != #[trigger] after[b].0 by {
        assert(after[a].0 == insts[a].0);
        assert(after[b].0 == insts[b].0);
    }
    match id_pos(insts, other) {
        Some(q) => {
            assert(insts[q].0 == other);
            lemma_id_pos(after, other, q);
        },
        None => {
            assert forall|i: int| 0 <= i < after.len() implies #[trigger] after[i].0 != other by {
                assert(after[i].0 == insts[i].0);
                assert(!(insts[i].0 == other));
            }
        },
    }
}

/// After clearing the change marks, no evented variable has pending changes.
pub proof fn lemma_cleared_reports_nothing<S: StateVariableName>(
    schema: Seq<StateSchema<S>>,
    vs: Seq<(Seq<char>, VarView)>,
)
    ensures
        evented_pairs(schema, cleared(vs), true) == Seq::<(Seq<char>, Seq<char>)>::empty(),
    decreases vs.len(),
{
    if vs.len() > 0 && schema.len() > 0 {
        assert(cleared(vs).drop_last() =~= cleared(vs.drop_last()));
        lemma_cleared_reports_nothing(schema.drop_last(), vs.drop_last());
    }
}

/// Every change-marked evented variable is also reported among all evented
/// variables: the changed list is never longer than the full list.
pub proof fn lemma_changed_within_evented<S: StateVariableName>(
    schema: Seq<StateSchema<S>>,
    vs: Seq<(Seq<char>, VarView)>,
)
    ensures
        evented_pairs(schema, vs, true).len() <= evented_pairs(schema, vs, false).len(),
    decreases vs.len(),
{
    if vs.len() > 0 && schema.len() > 0 {
        lemma_changed_within_evented(schema.drop_last(), vs.drop_last());
    }
}

/// The global variables after writing each pair in order, each write checked
/// against the definitions.
pub open spec fn write_all<S: StateVariableName>(
    schema: Seq<StateSchema<S>>,
    vs: Seq<(Seq<char>, VarView)>,
    pairs: Seq<(S, DataType)>,
) -> Seq<(Seq<char>, VarView)>
    decreases pairs.len(),
{
    if pairs.len() == 0 {
        vs
    } else {
        checked_write(
            schema,
            write_all(schema, vs, pairs.drop_last()),
            pairs.last().0.wire_name(),
            pairs.last().1@,
        )
    }
}

} // verus!
