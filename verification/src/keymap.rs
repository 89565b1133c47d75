//! Mode-scoped resolution of key sequences to actions.
use vstd::prelude::*;

verus! {

use crate::action::Action;
use crate::action::ActionModel;
use crate::action::opt_action_view;
use crate::key::Key;

/// The application-level context that selects which bindings apply.
/// Exactly one mode is active at a time; only the application loop moves it.
#[derive(Clone, Copy, Debug, PartialEq, Eq, Structural)]
pub enum Mode {
    LayerList,
    Srs,
    Extent,
    Fields,
}

/// One binding: in `mode`, the key sequence `keys` triggers `action`.
#[derive(Clone, Debug, PartialEq)]
pub struct Binding {
    pub mode: Mode,
    pub keys: Vec<Key>,
    pub action: Action,
}

/// Mathematical image of a [`Binding`] value.
pub struct BindingModel {
    pub mode: Mode,
    pub keys: Seq<Key>,
    pub action: ActionModel,
}

impl View for Binding {
    type V = BindingModel;

    open spec fn view(&self) -> BindingModel {
        BindingModel { mode: self.mode, keys: self.keys@, action: self.action@ }
    }
}

/// The key bindings of the application, loaded once before the loop starts
/// and read-only afterwards.  When several bindings give the same mode and
/// sequence, the earliest one wins.
pub struct Keymap {
    pub bindings: Vec<Binding>,
}

impl View for Keymap {
    type V = Seq<BindingModel>;

    open spec fn view(&self) -> Seq<BindingModel> {
        self.bindings@.map_values(|b: Binding| b@)
    }
}

/// The action bound to `keys` in `mode`: the earliest binding whose mode and
/// sequence match exactly, if any.
pub open spec fn lookup_spec(bs: Seq<BindingModel>, mode: Mode, keys: Seq<Key>) -> Option<
    ActionModel,
>
    decreases bs.len(),
{
    if bs.len() == 0 {
        Option::None
    } else if bs[0].mode == mode && bs[0].keys == keys {
        Option::Some(bs[0].action)
    } else {
        lookup_spec(bs.skip(1), mode, keys)
    }
}

/// One resolution step of the keymap resolver on a fresh key press `key`,
/// with `pending` the keys accumulated since the last tick: the single most
/// recent key alone is tried first; only when it is bound to nothing is the
/// key appended to `pending` and the whole accumulated sequence tried.
/// Returns the action resolved, if any, and the new pending sequence.
pub open spec fn resolve_spec(
    bs: Seq<BindingModel>,
    mode: Mode,
    pending: Seq<Key>,
    key: Key,
) -> (Option<ActionModel>, Seq<Key>) {
    let single = lookup_spec(bs, mode, seq![key]);
    if single is Some {
        (single, pending)
    } else {
        let grown = pending.push(key);
        (lookup_spec(bs, mode, grown), grown)
    }
}

/// Whether two key sequences are the same presses in the same order.
fn keys_eq(a: &Vec<Key>, b: &Vec<Key>) -> (r: bool)
    ensures
        r == (a@ == b@),
{
    if a.len() != b.len() {
        proof {
            assert(a@.len() != b@.len());
        }
        return false;
    }
    let mut i: usize = 0;
    while i < a.len()
        invariant
            i <= a.len(),
            a@.len() == b@.len(),
            forall|k: int| 0 <= k < i ==> a@[k] == b@[k],
        decreases a.len() - i,
    {
        if a[i] != b[i] {
            return false;
        }
        i = i + 1;
    }
    proof {
        assert(a@ =~= b@);
    }
    true
}

impl Keymap {
    /// A keymap made of the given bindings.
    pub fn new(bindings: Vec<Binding>) -> (r: Keymap)
        ensures
            r@ == bindings@.map_values(|b: Binding| b@),
    {
        Keymap { bindings }
    }

    /// The action bound to `keys` in `mode`, if any.
    pub fn lookup(&self, mode: Mode, keys: &Vec<Key>) -> (r: Option<Action>)
        ensures
            opt_action_view(r) == lookup_spec(self@, mode, keys@),
    {
        let mut i: usize = 0;
        proof {
            assert(self@.skip(0) =~= self@);
        }
        while i < self.bindings.len()
            invariant
                i <= self.bindings.len(),
                lookup_spec(self@, mode, keys@) == lookup_spec(self@.skip(i as int), mode, keys@),
            decreases self.bindings.len() - i,
        {
            proof {
                assert(self@.skip(i as int)[0] == self@[i as int]);
                assert(self@.skip(i as int).skip(1) =~= self@.skip(i + 1));
            }
            let b = &self.bindings[i];
            if b.mode == mode && keys_eq(&b.keys, keys) {
                return Some(b.action.duplicate());
            }
            i = i + 1;
        }
        proof {
            assert(self@.skip(self.bindings@.len() as int) =~= Seq::<BindingModel>::empty());
        }
        None
    }

    /// One resolution step on a fresh key press, as [`resolve_spec`] says:
    /// a single-key binding always wins; otherwise the key joins `pending`
    /// and the whole accumulated sequence is looked up.
    pub fn resolve(&self, mode: Mode, pending: &mut Vec<Key>, key: Key) -> (r: Option<Action>)
        ensures
            (opt_action_view(r), final(pending)@) == resolve_spec(self@, mode, old(pending)@, key),
    {
        let mut single: Vec<Key> = Vec::new();
        single.push(key);
        proof {
            assert(single@ =~= seq![key]);
        }
        let hit = self.lookup(mode, &single);
        match hit {
            Some(a) => Some(a),
            None => {
                pending.push(key);
                self.lookup(mode, pending)
            },
        }
    }
}

/// A bound single key always resolves at once: when `key` alone is bound in
/// `mode`, one resolution step returns that binding's action and leaves the
/// pending sequence as it was, whatever it holds — no longer binding sharing
/// the key as a prefix is waited for.
pub proof fn lemma_single_key_wins(
    bs: Seq<BindingModel>,
    mode: Mode,
    pending: Seq<Key>,
    key: Key,
)
    requires
        lookup_spec(bs, mode, seq![key]) is Some,
    ensures
        resolve_spec(bs, mode, pending, key) == (
            lookup_spec(bs, mode, seq![key]),
            pending,
        ),
{
}

/// A two-key chord resolves across two presses: when `k1` and `k2` are each
/// unbound alone in `mode` and the sequence `[k1, k2]` is bound, pressing
/// `k1` with nothing pending resolves to no action, and pressing `k2` next
/// resolves to exactly the chord's action.  (Were `k2` bound alone, the
/// single-key binding would win instead; such inputs are outside this law.)
pub proof fn lemma_chord_resolves(bs: Seq<BindingModel>, mode: Mode, k1: Key, k2: Key)
    requires
        lookup_spec(bs, mode, seq![k1]) is None,
        lookup_spec(bs, mode, seq![k2]) is None,
        lookup_spec(bs, mode, seq![k1, k2]) is Some,
    ensures
        resolve_spec(bs, mode, Seq::<Key>::empty(), k1).0 is None,
        resolve_spec(bs, mode, Seq::<Key>::empty(), k1).1 == seq![k1],
        resolve_spec(bs, mode, seq![k1], k2).0 == lookup_spec(bs, mode, seq![k1, k2]),
{
    assert(Seq::<Key>::empty().push(k1) =~= seq![k1]);
    assert(seq![k1].push(k2) =~= seq![k1, k2]);
}

} // verus!
