//! Actions: the fan-out of one declared action into input-abstraction
//! actions, one per declared sub-action path, and the resolution of a state
//! query against that fan-out.
use vstd::prelude::*;
use crate::codes::LayerError;

verus! {

/// The null path: no sub-action path given.
pub const NULL_PATH: u64 = 0;

/// The value type an action is declared with.
#[derive(Clone, Copy, Debug, PartialEq, Eq, Structural)]
pub enum ActionKind {
    Boolean,
    Float,
    Vector2f,
    Pose,
    Vibration,
}

/// The value type that a foreign action-type code names, if any.
pub open spec fn spec_action_kind(raw: i32) -> Option<ActionKind> {
    if raw == 1 {
        Some(ActionKind::Boolean)
    } else if raw == 2 {
        Some(ActionKind::Float)
    } else if raw == 3 {
        Some(ActionKind::Vector2f)
    } else if raw == 4 {
        Some(ActionKind::Pose)
    } else if raw == 100 {
        Some(ActionKind::Vibration)
    } else {
        None
    }
}

impl ActionKind {
    /// Reads a foreign action-type code.
    pub fn from_raw(raw: i32) -> (r: Option<ActionKind>)
        ensures
            r == spec_action_kind(raw),
    {
        if raw == 1 {
            Some(ActionKind::Boolean)
        } else if raw == 2 {
            Some(ActionKind::Float)
        } else if raw == 3 {
            Some(ActionKind::Vector2f)
        } else if raw == 4 {
            Some(ActionKind::Pose)
        } else if raw == 100 {
            Some(ActionKind::Vibration)
        } else {
            None
        }
    }

    /// Whether values of this type are read through an input-abstraction action.
    pub open spec fn has_input(self) -> bool {
        self is Boolean || self is Float || self is Vector2f
    }
}

/// How many input-abstraction actions an action of this type with this
/// many sub-action paths is made of.
pub open spec fn spec_inputs_needed(kind: ActionKind, paths: nat) -> nat {
    if !kind.has_input() {
        0
    } else if paths == 0 {
        1
    } else {
        paths
    }
}

/// How many input-abstraction actions to create for a new action.
pub fn inputs_needed(kind: ActionKind, paths: usize) -> (r: usize)
    ensures
        r == spec_inputs_needed(kind, paths as nat),
{
    match kind {
        ActionKind::Boolean | ActionKind::Float | ActionKind::Vector2f => {
            if paths == 0 {
                1
            } else {
                paths
            }
        },
        _ => 0,
    }
}

/// An action declared without sub-action paths.
#[derive(Debug)]
pub enum SingletonAction {
    Boolean(u64),
    Float(u64),
    Vector2f(u64),
    Pose,
    Vibration,
}

/// An action declared with sub-action paths: per path, the input action.
/// Pose and haptic actions keep the declared paths alone.
#[derive(Debug)]
pub enum ManySubActions {
    Boolean(Vec<(u64, u64)>),
    Float(Vec<(u64, u64)>),
    Vector2f(Vec<(u64, u64)>),
    Pose(Vec<u64>),
    Vibration(Vec<u64>),
}

/// The translation of one action: a single input action, or one per path.
#[derive(Debug)]
pub enum SubActions {
    Single(SingletonAction),
    Many(ManySubActions),
}

/// The input action paired with the first occurrence of `path`.
pub open spec fn pair_lookup(pairs: Seq<(u64, u64)>, path: u64) -> Option<u64>
    decreases pairs.len(),
{
    if pairs.len() == 0 {
        None
    } else if pairs[0].0 == path {
        Some(pairs[0].1)
    } else {
        pair_lookup(pairs.drop_first(), path)
    }
}

/// The paths of a sequence of pairs.
pub open spec fn pair_paths(pairs: Seq<(u64, u64)>) -> Seq<u64> {
    pairs.map_values(|p: (u64, u64)| p.0)
}

/// Paths and inputs taken side by side.
pub open spec fn zip_pairs(paths: Seq<u64>, inputs: Seq<u64>) -> Seq<(u64, u64)> {
    Seq::new(paths.len(), |i: int| (paths[i], inputs[i]))
}

impl SingletonAction {
    pub open spec fn kind(&self) -> ActionKind {
        match self {
            SingletonAction::Boolean(_) => ActionKind::Boolean,
            SingletonAction::Float(_) => ActionKind::Float,
            SingletonAction::Vector2f(_) => ActionKind::Vector2f,
            SingletonAction::Pose => ActionKind::Pose,
            SingletonAction::Vibration => ActionKind::Vibration,
        }
    }

    pub open spec fn input(&self) -> u64 {
        match self {
            SingletonAction::Boolean(i) => *i,
            SingletonAction::Float(i) => *i,
            SingletonAction::Vector2f(i) => *i,
            _ => 0,
        }
    }
}

impl ManySubActions {
    pub open spec fn kind(&self) -> ActionKind {
        match self {
            ManySubActions::Boolean(_) => ActionKind::Boolean,
            ManySubActions::Float(_) => ActionKind::Float,
            ManySubActions::Vector2f(_) => ActionKind::Vector2f,
            ManySubActions::Pose(_) => ActionKind::Pose,
            ManySubActions::Vibration(_) => ActionKind::Vibration,
        }
    }

    /// The declared paths, in order.
    pub open spec fn paths(&self) -> Seq<u64> {
        match self {
            ManySubActions::Boolean(v) => pair_paths(v@),
            ManySubActions::Float(v) => pair_paths(v@),
            ManySubActions::Vector2f(v) => pair_paths(v@),
            ManySubActions::Pose(v) => v@,
            ManySubActions::Vibration(v) => v@,
        }
    }

    /// The (path, input action) pairs, in declaration order; none for pose
    /// and haptic actions.
    pub open spec fn pairs(&self) -> Seq<(u64, u64)> {
        match self {
            ManySubActions::Boolean(v) => v@,
            ManySubActions::Float(v) => v@,
            ManySubActions::Vector2f(v) => v@,
            _ => Seq::empty(),
        }
    }

    /// The input action that a declared path is read through.
    pub open spec fn input_for(&self, path: u64) -> Option<u64> {
        match self {
            ManySubActions::Boolean(v) => pair_lookup(v@, path),
            ManySubActions::Float(v) => pair_lookup(v@, path),
            ManySubActions::Vector2f(v) => pair_lookup(v@, path),
            _ => None,
        }
    }
}

/// A pair list holds a path exactly when the lookup finds it.
proof fn lemma_pair_lookup_paths(pairs: Seq<(u64, u64)>, path: u64)
    ensures
        pair_lookup(pairs, path).is_some() <==> pair_paths(pairs).contains(path),
    decreases pairs.len(),
{
    if pairs.len() > 0 {
        lemma_pair_lookup_paths(pairs.drop_first(), path);
        assert(pair_paths(pairs.drop_first()) =~= pair_paths(pairs).drop_first());
        if pairs[0].0 != path {
            if pair_paths(pairs).contains(path) {
                let k = choose|k: int| 0 <= k < pair_paths(pairs).len() && pair_paths(pairs)[k] == path;
                assert(pair_paths(pairs.drop_first())[k - 1] == path);
            }
        } else {
            assert(pair_paths(pairs)[0] == path);
        }
    }
}

/// The outcome of reading an action of this translation through an
/// accessor of type `kind` with sub-action path `path`: the path is checked
/// first, then the value type.
pub open spec fn spec_resolve(sub: SubActions, path: u64, kind: ActionKind) -> Result<u64, LayerError> {
    match sub {
        SubActions::Single(single) => {
            if path != NULL_PATH {
                Err(LayerError::PathInvalid)
            } else if single.kind() != kind {
                Err(LayerError::ActionTypeMismatch)
            } else {
                Ok(single.input())
            }
        },
        SubActions::Many(many) => {
            if !many.paths().contains(path) {
                Err(LayerError::PathInvalid)
            } else if many.kind() != kind {
                Err(LayerError::ActionTypeMismatch)
            } else {
                Ok(
                    match many.input_for(path) {
                        Some(input) => input,
                        None => 0,
                    },
                )
            }
        },
    }
}

/// The first input paired with `path`, searching the pairs in order.
fn find_pair(pairs: &Vec<(u64, u64)>, path: u64) -> (r: Option<u64>)
    ensures
        r == pair_lookup(pairs@, path),
{
    let mut i: usize = 0;
    assert(pairs@.skip(0) =~= pairs@);
    while i < pairs.len()
        invariant
            i <= pairs@.len(),
            pair_lookup(pairs@, path) == pair_lookup(pairs@.skip(i as int), path),
        decreases pairs@.len() - i,
    {
        assert(pairs@.skip(i as int).drop_first() =~= pairs@.skip(i + 1));
        if pairs[i].0 == path {
            return Some(pairs[i].1);
        }
        i += 1;
    }
    None
}

/// Whether `path` is among `paths`.
fn has_path(paths: &Vec<u64>, path: u64) -> (r: bool)
    ensures
        r == paths@.contains(path),
{
    let mut i: usize = 0;
    while i < paths.len()
        invariant
            i <= paths@.len(),
            forall|j: int| 0 <= j < i ==> paths@[j] != path,
        decreases paths@.len() - i,
    {
        if paths[i] == path {
            return true;
        }
        i += 1;
    }
    false
}

impl SubActions {
    /// The value type the action was declared with.
    pub open spec fn kind(&self) -> ActionKind {
        match self {
            SubActions::Single(single) => single.kind(),
            SubActions::Many(many) => many.kind(),
        }
    }

    /// The declared sub-action paths (none for a singleton).
    pub open spec fn paths(&self) -> Seq<u64> {
        match self {
            SubActions::Single(_) => Seq::empty(),
            SubActions::Many(many) => many.paths(),
        }
    }

    /// The translation of an action of type `kind` declared with `paths`
    /// over `inputs`: the one input when there are no paths, else the
    /// inputs paired with the paths in order.
    pub open spec fn built_from(&self, kind: ActionKind, paths: Seq<u64>, inputs: Seq<u64>) -> bool {
        &&& self.kind() == kind
        &&& self.paths() == paths
        &&& paths.len() == 0 && kind.has_input() ==> *self == SubActions::Single(
            match kind {
                ActionKind::Boolean => SingletonAction::Boolean(inputs[0]),
                ActionKind::Float => SingletonAction::Float(inputs[0]),
                _ => SingletonAction::Vector2f(inputs[0]),
            },
        )
        &&& (paths.len() == 0 <==> *self is Single)
        &&& paths.len() > 0 && kind.has_input() ==> (*self matches SubActions::Many(many)
            && many.pairs() == zip_pairs(paths, inputs))
    }

    /// The translation of a new action of type `kind` declared with
    /// `paths`, over the input actions created for it: the one input when
    /// there are no paths, else the inputs paired with the paths in order.
    pub fn new(kind: ActionKind, paths: &Vec<u64>, inputs: &Vec<u64>) -> (r: SubActions)
        requires
            inputs@.len() == spec_inputs_needed(kind, paths@.len()),
        ensures
            r.built_from(kind, paths@, inputs@),
    {
        if paths.len() == 0 {
            assert(paths@ =~= Seq::<u64>::empty());
            return SubActions::Single(
                match kind {
                    ActionKind::Boolean => SingletonAction::Boolean(inputs[0]),
                    ActionKind::Float => SingletonAction::Float(inputs[0]),
                    ActionKind::Vector2f => SingletonAction::Vector2f(inputs[0]),
                    ActionKind::Pose => SingletonAction::Pose,
                    ActionKind::Vibration => SingletonAction::Vibration,
                },
            );
        }
        if !matches!(kind, ActionKind::Boolean | ActionKind::Float | ActionKind::Vector2f) {
            let kept = paths.clone();
            proof {
                assert(kept@ == paths@);
            }
            return SubActions::Many(
                if matches!(kind, ActionKind::Pose) {
                    ManySubActions::Pose(kept)
                } else {
                    ManySubActions::Vibration(kept)
                },
            );
        }
        let mut pairs: Vec<(u64, u64)> = Vec::new();
        let mut i: usize = 0;
        while i < paths.len()
            invariant
                i <= paths@.len(),
                inputs@.len() == paths@.len(),
                pairs@ =~= zip_pairs(paths@, inputs@).take(i as int),
            decreases paths@.len() - i,
        {
            pairs.push((paths[i], inputs[i]));
            i += 1;
        }
        proof {
            assert(zip_pairs(paths@, inputs@).take(paths@.len() as int) =~= zip_pairs(paths@, inputs@));
            assert(pair_paths(pairs@) =~= paths@);
        }
        SubActions::Many(
            match kind {
                ActionKind::Boolean => ManySubActions::Boolean(pairs),
                ActionKind::Float => ManySubActions::Float(pairs),
                _ => ManySubActions::Vector2f(pairs),
            },
        )
    }

    /// The input action to read for a state query through an accessor of
    /// type `kind` with sub-action path `path`.
    pub fn resolve(&self, path: u64, kind: ActionKind) -> (r: Result<u64, LayerError>)
        ensures
            r == spec_resolve(*self, path, kind),
    {
        match self {
            SubActions::Single(single) => {
                if path != NULL_PATH {
                    return Err(LayerError::PathInvalid);
                }
                let (declared, input) = match single {
                    SingletonAction::Boolean(input) => (ActionKind::Boolean, *input),
                    SingletonAction::Float(input) => (ActionKind::Float, *input),
                    SingletonAction::Vector2f(input) => (ActionKind::Vector2f, *input),
                    SingletonAction::Pose => (ActionKind::Pose, 0),
                    SingletonAction::Vibration => (ActionKind::Vibration, 0),
                };
                if declared != kind {
                    Err(LayerError::ActionTypeMismatch)
                } else {
                    Ok(input)
                }
            },
            SubActions::Many(many) => {
                match many {
                    ManySubActions::Boolean(pairs) | ManySubActions::Float(pairs)
                    | ManySubActions::Vector2f(pairs) => {
                        let found = find_pair(pairs, path);
                        proof {
                            lemma_pair_lookup_paths(pairs@, path);
                        }
                        match found {
                            None => Err(LayerError::PathInvalid),
                            Some(input) => {
                                if many.exec_kind() != kind {
                                    Err(LayerError::ActionTypeMismatch)
                                } else {
                                    Ok(input)
                                }
                            },
                        }
                    },
                    ManySubActions::Pose(paths) | ManySubActions::Vibration(paths) => {
                        if !has_path(paths, path) {
                            Err(LayerError::PathInvalid)
                        } else if many.exec_kind() != kind {
                            Err(LayerError::ActionTypeMismatch)
                        } else {
                            Ok(0)
                        }
                    },
                }
            },
        }
    }
}

impl ManySubActions {
    fn exec_kind(&self) -> (r: ActionKind)
        ensures
            r == self.kind(),
    {
        match self {
            ManySubActions::Boolean(_) => ActionKind::Boolean,
            ManySubActions::Float(_) => ActionKind::Float,
            ManySubActions::Vector2f(_) => ActionKind::Vector2f,
            ManySubActions::Pose(_) => ActionKind::Pose,
            ManySubActions::Vibration(_) => ActionKind::Vibration,
        }
    }
}

/// The state of a boolean action as the caller receives it.
#[derive(Clone, Copy, Debug, Default, PartialEq, Eq, Structural)]
pub struct BooleanState {
    pub enabled: bool,
    pub changed: bool,
    pub state: bool,
    pub last_change_time: i64,
}

/// The state of a pose action as the caller receives it.
#[derive(Clone, Copy, Debug, Default, PartialEq, Eq, Structural)]
pub struct PoseState {
    pub enabled: bool,
}

impl BooleanState {
    /// The active state of an action from what the input-abstraction
    /// session last synchronized: its value, whether it changed in that
    /// sync, and when it last changed.
    pub fn from_input(state: bool, changed: bool, last_change_time: i64) -> (r: BooleanState)
        ensures
            r == (BooleanState { enabled: true, changed, state, last_change_time }),
    {
        BooleanState { enabled: true, changed, state, last_change_time }
    }
}

} // verus!

verus! {

/// The layer's state for one action.
#[derive(Debug)]
pub struct LayerAction {
    /// The owning instance, as a position in the layer's instance table.
    pub instance: usize,
    /// The action set it was created in, as a position in the layer's
    /// action-set table.
    pub action_set: usize,
    /// The declared name.
    pub name: String,
    /// Its translation into input-abstraction actions; fixed at creation.
    pub sub_actions: SubActions,
}

} // verus!
