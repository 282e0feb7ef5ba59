use vstd::prelude::*;
use vstd::seq_lib::group_seq_properties;

use crate::error::Error;

verus! {

/// Desired or observed configuration of the display subsystem.  An empty
/// `primary_device_id` means "no preference".  A well-formed state never
/// lists the same device identifier as both enabled and disabled.
#[derive(Debug, Clone, PartialEq)]
pub struct DisplayState {
    pub primary_device_id: String,
    pub enabled_device_ids: Vec<String>,
    pub disabled_device_ids: Vec<String>,
}

/// The mathematical value of a display state: the primary device identifier
/// and the two identifier lists, each as character sequences.
#[verifier::ext_equal]
pub struct DisplayStateV {
    pub primary: Seq<char>,
    pub enabled: Seq<Seq<char>>,
    pub disabled: Seq<Seq<char>>,
}

/// The character sequences of a list of identifiers, in order.
pub open spec fn id_views(ids: Seq<String>) -> Seq<Seq<char>> {
    ids.map_values(|s: String| s@)
}

/// The predicate holding of the identifiers present in `within`.
pub open spec fn present_in(within: Seq<Seq<char>>) -> spec_fn(Seq<char>) -> bool {
    |id: Seq<char>| within.contains(id)
}

/// The predicate holding of the identifiers absent from `within`.
pub open spec fn absent_in(within: Seq<Seq<char>>) -> spec_fn(Seq<char>) -> bool {
    |id: Seq<char>| !within.contains(id)
}

impl View for DisplayState {
    type V = DisplayStateV;

    open spec fn view(&self) -> DisplayStateV {
        DisplayStateV {
            primary: self.primary_device_id@,
            enabled: id_views(self.enabled_device_ids@),
            disabled: id_views(self.disabled_device_ids@),
        }
    }
}

/// Whether a display state value carries nothing: no primary device and no
/// identifiers to enable or disable.
pub open spec fn display_view_empty(v: DisplayStateV) -> bool {
    &&& v.primary.len() == 0
    &&& v.enabled.len() == 0
    &&& v.disabled.len() == 0
}

/// Well-formedness: no identifier appears as both enabled and disabled.
pub open spec fn display_view_wf(v: DisplayStateV) -> bool {
    forall|id: Seq<char>| !(v.enabled.contains(id) && v.disabled.contains(id))
}

impl DisplayState {
    /// A display state with no preference for any attribute.
    pub fn new() -> (r: DisplayState)
        ensures
            r@ == (DisplayStateV {
                primary: Seq::<char>::empty(),
                enabled: Seq::<Seq<char>>::empty(),
                disabled: Seq::<Seq<char>>::empty(),
            }),
    {
        let r = DisplayState {
            primary_device_id: String::new(),
            enabled_device_ids: Vec::new(),
            disabled_device_ids: Vec::new(),
        };
        proof {
            assert(r@ =~= (DisplayStateV {
                primary: Seq::<char>::empty(),
                enabled: Seq::<Seq<char>>::empty(),
                disabled: Seq::<Seq<char>>::empty(),
            }));
        }
        r
    }

    /// Whether this state expresses no preference at all.
    pub open spec fn is_spec_empty(self) -> bool {
        display_view_empty(self@)
    }

    pub fn is_empty(&self) -> (r: bool)
        ensures
            r == self.is_spec_empty(),
    {
        if self.primary_device_id.as_str().is_empty() && self.enabled_device_ids.is_empty()
            && self.disabled_device_ids.is_empty() {
            true
        } else {
            false
        }
    }
}

/// The display objective for a (desired, observed) pair.
///
/// The primary device is carried iff it differs from the observed one.  Only
/// identifiers that the observed state reports as disabled need an enable
/// action, and only identifiers reported as enabled need a disable action;
/// identifiers unknown to the observed state are left untouched, since the
/// system cannot confirm they exist.
pub open spec fn display_objective(d: DisplayStateV, s: DisplayStateV) -> DisplayStateV {
    DisplayStateV {
        primary: if d.primary == s.primary {
            Seq::<char>::empty()
        } else {
            d.primary
        },
        enabled: d.enabled.filter(present_in(s.disabled)),
        disabled: d.disabled.filter(present_in(s.enabled)),
    }
}

/// The identifiers of the desired display state that still have to change,
/// as computed by [`get_objectives`].
#[derive(Debug, Clone, PartialEq)]
pub struct DisplayObjective {
    pub primary_device_id: String,
    pub enabled_device_ids: Vec<String>,
    pub disabled_device_ids: Vec<String>,
}

impl View for DisplayObjective {
    type V = DisplayStateV;

    open spec fn view(&self) -> DisplayStateV {
        DisplayStateV {
            primary: self.primary_device_id@,
            enabled: id_views(self.enabled_device_ids@),
            disabled: id_views(self.disabled_device_ids@),
        }
    }
}

/// Whether `ids` holds an identifier with the character sequence of `id`.
fn contains_id(ids: &Vec<String>, id: &String) -> (r: bool)
    ensures
        r == id_views(ids@).contains(id@),
{
    let mut i: usize = 0;
    while i < ids.len()
        invariant
            i <= ids.len(),
            forall|j: int| 0 <= j < i ==> id_views(ids@)[j] != id@,
        decreases ids.len() - i,
    {
        if ids[i] == *id {
            proof {
                assert(id_views(ids@)[i as int] == id@);
            }
            return true;
        }
        i = i + 1;
    }
    false
}

/// The identifiers of `ids` that are present in `within`, in order.
fn filter_present(ids: &Vec<String>, within: &Vec<String>) -> (r: Vec<String>)
    ensures
        id_views(r@) == id_views(ids@).filter(present_in(id_views(within@))),
{
    let ghost pred = present_in(id_views(within@));
    let mut r: Vec<String> = Vec::new();
    let mut i: usize = 0;
    proof {
        assert(id_views(r@) =~= id_views(ids@.take(0)).filter(pred)) by {
            reveal(Seq::filter);
            assert(id_views(ids@.take(0)) =~= Seq::<Seq<char>>::empty());
            assert(id_views(r@) =~= Seq::<Seq<char>>::empty());
        }
    }
    while i < ids.len()
        invariant
            i <= ids.len(),
            pred == present_in(id_views(within@)),
            id_views(r@) == id_views(ids@.take(i as int)).filter(pred),
        decreases ids.len() - i,
    {
        let ghost prev = r@;
        if contains_id(within, &ids[i]) {
            r.push(ids[i].clone());
        }
        proof {
            broadcast use Seq::lemma_filter_push;

            assert(ids@.take(i + 1) =~= ids@.take(i as int).push(ids@[i as int]));
            assert(id_views(ids@.take(i as int).push(ids@[i as int])) =~= id_views(
                ids@.take(i as int),
            ).push(ids@[i as int]@));
            if pred(ids@[i as int]@) {
                assert(id_views(r@) =~= id_views(prev).push(ids@[i as int]@));
            } else {
                assert(id_views(r@) =~= id_views(prev));
            }
        }
        i = i + 1;
    }
    proof {
        assert(ids@.take(i as int) =~= ids@);
    }
    r
}

/// Compute the display objective; `None` means the subsystem is converged.
pub fn get_objectives(desired_state: &DisplayState, system_state: &DisplayState) -> (r: Option<
    DisplayObjective,
>)
    ensures
        r is None <==> display_view_empty(display_objective(desired_state@, system_state@)),
        r matches Some(o) ==> o@ == display_objective(desired_state@, system_state@),
{
    let primary_matches = desired_state.primary_device_id == system_state.primary_device_id;
    let primary_device_id: String = if primary_matches {
        String::new()
    } else {
        desired_state.primary_device_id.clone()
    };
    let enabled_device_ids = filter_present(
        &desired_state.enabled_device_ids,
        &system_state.disabled_device_ids,
    );
    let disabled_device_ids = filter_present(
        &desired_state.disabled_device_ids,
        &system_state.enabled_device_ids,
    );
    if primary_device_id.as_str().is_empty() && enabled_device_ids.is_empty()
        && disabled_device_ids.is_empty() {
        None
    } else {
        Some(DisplayObjective { primary_device_id, enabled_device_ids, disabled_device_ids })
    }
}

/// The observed display state that applying an objective produces, assuming
/// the adapter applies exactly what was requested: enabled identifiers move
/// out of the disabled list and vice versa, and a carried primary device
/// replaces the observed one.
pub open spec fn apply_display_objective(objective: DisplayStateV, s: DisplayStateV) -> DisplayStateV {
    DisplayStateV {
        primary: if objective.primary.len() > 0 {
            objective.primary
        } else {
            s.primary
        },
        enabled: s.enabled.filter(absent_in(objective.disabled)) + objective.enabled,
        disabled: s.disabled.filter(absent_in(objective.enabled)) + objective.disabled,
    }
}

/// Idempotence: a well-formed desired display state is converged against an
/// observed state equal to it.
pub proof fn lemma_display_objective_idempotent(d: DisplayStateV)
    requires
        display_view_wf(d),
    ensures
        display_view_empty(display_objective(d, d)),
{
    d.enabled.lemma_all_neg_filter_empty(present_in(d.disabled));
    d.disabled.lemma_all_neg_filter_empty(present_in(d.enabled));
}

/// Single-step convergence: applying the objective computed for a
/// well-formed desired state produces an observed state against which the
/// next objective is empty.
pub proof fn lemma_display_single_step(d: DisplayStateV, s: DisplayStateV)
    requires
        display_view_wf(d),
    ensures
        display_view_empty(display_objective(d, apply_display_objective(display_objective(d, s), s))),
{
    broadcast use group_seq_properties;
    broadcast use Seq::lemma_filter_contains_rev;
    broadcast use Seq::lemma_filter_contains;
    broadcast use Seq::lemma_filter_pred;

    let obj = display_objective(d, s);
    let s2 = apply_display_objective(obj, s);
    assert forall|id: Seq<char>| d.enabled.contains(id) implies !s2.disabled.contains(id) by {
        if s2.disabled.contains(id) {
            let k = choose|k: int| 0 <= k < s2.disabled.len() && s2.disabled[k] == id;
            let lhs = s.disabled.filter(absent_in(obj.enabled));
            if k < lhs.len() {
                assert(lhs.contains(id));
                assert(s.disabled.contains(id));
                assert(absent_in(obj.enabled)(id));
                let j = choose|j: int| 0 <= j < d.enabled.len() && d.enabled[j] == id;
                assert(present_in(s.disabled)(d.enabled[j]));
                assert(obj.enabled.contains(id));
            } else {
                assert(obj.disabled[k - lhs.len()] == id);
                assert(obj.disabled.contains(id));
                assert(d.disabled.contains(id));
            }
        }
    }
    d.enabled.lemma_all_neg_filter_empty(present_in(s2.disabled));
    assert forall|id: Seq<char>| d.disabled.contains(id) implies !s2.enabled.contains(id) by {
        if s2.enabled.contains(id) {
            let k = choose|k: int| 0 <= k < s2.enabled.len() && s2.enabled[k] == id;
            let lhs = s.enabled.filter(absent_in(obj.disabled));
            if k < lhs.len() {
                assert(lhs.contains(id));
                assert(s.enabled.contains(id));
                assert(absent_in(obj.disabled)(id));
                let j = choose|j: int| 0 <= j < d.disabled.len() && d.disabled[j] == id;
                assert(present_in(s.enabled)(d.disabled[j]));
                assert(obj.disabled.contains(id));
            } else {
                assert(obj.enabled[k - lhs.len()] == id);
                assert(obj.enabled.contains(id));
                assert(d.enabled.contains(id));
            }
        }
    }
    d.disabled.lemma_all_neg_filter_empty(present_in(s2.enabled));
}

/// The capability set a display adapter implements: a human-readable device
/// listing, one observation, three primitive mutations, and the
/// reconciliation step built from them.
pub trait DisplayModifier {
    /// A human-readable listing of the monitors and their identifiers.
    fn get_id_readout(&self) -> Result<String, Error>;

    /// Observe the current display configuration.
    fn get_system_state(&self) -> Result<DisplayState, Error>;

    fn enable_monitors(&self, device_ids: &Vec<String>) -> Result<(), Error>;

    fn disable_monitors(&self, device_ids: &Vec<String>) -> Result<(), Error>;

    fn set_primary_device(&self, id: &str) -> Result<(), Error>;

    /// Read the observed state once, compute the objective, and apply every
    /// identifier list and primary-device change it carries.  Returns
    /// `Ok(true)` iff at least one primitive was invoked and all invoked
    /// primitives succeeded.  An all-empty desired state short-circuits
    /// without reading the system.
    fn check_and_modify(&self, desired_state: &DisplayState) -> (r: Result<bool, Error>)
        ensures
            desired_state.is_spec_empty() ==> r == Ok::<bool, Error>(false),
    {
        if desired_state.is_empty() {
            return Ok(false);
        }
        let system_state = match self.get_system_state() {
            Ok(s) => s,
            Err(e) => return Err(e),
        };
        let objectives = match get_objectives(desired_state, &system_state) {
            Some(o) => o,
            None => return Ok(false),
        };
        if !objectives.enabled_device_ids.is_empty() {
            match self.enable_monitors(&objectives.enabled_device_ids) {
                Ok(_) => (),
                Err(e) => return Err(e),
            }
        }
        if !objectives.disabled_device_ids.is_empty() {
            match self.disable_monitors(&objectives.disabled_device_ids) {
                Ok(_) => (),
                Err(e) => return Err(e),
            }
        }
        if !objectives.primary_device_id.as_str().is_empty() {
            match self.set_primary_device(objectives.primary_device_id.as_str()) {
                Ok(_) => (),
                Err(e) => return Err(e),
            }
        }
        Ok(true)
    }
}

} // verus!
