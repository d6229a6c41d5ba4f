use vstd::prelude::*;

use crate::action::RubiksAction;
use crate::grid::{Grid, apply_action, apply_seq, law_action_then_inverse, lemma_apply_seq_concat, lemma_apply_seq_push};
use vstd::string::{StrSliceExecFns, StringExecFns};

verus! {

/// How many trailing characters of the made moves are shown.
pub const HISTORY_TAIL: usize = 40;

/// The moves entered so far and how many of them are in effect: moves past
/// that point were taken back and can be made again.
pub struct History {
    actions: Vec<RubiksAction>,
    active: usize,
}

/// The contents of a history.
pub struct HistoryView {
    pub actions: Seq<RubiksAction>,
    pub active: nat,
}

impl View for History {
    type V = HistoryView;

    closed spec fn view(&self) -> HistoryView {
        HistoryView { actions: self.actions@, active: self.active as nat }
    }
}

/// The moves that undo the first `active` moves of `actions`, last move first.
pub open spec fn undo_moves(actions: Seq<RubiksAction>, active: nat) -> Seq<RubiksAction> {
    Seq::new(active, |k: int| actions[active - 1 - k].inverted())
}

/// The moves written one after another, each followed by a space.
pub open spec fn notation_line(v: Seq<RubiksAction>, wide_w: bool) -> Seq<char>
    decreases v.len(),
{
    if v.len() == 0 {
        Seq::empty()
    } else {
        notation_line(v.drop_last(), wide_w) + v.last().notation(wide_w) + seq![' ']
    }
}

/// The last `n` characters of `s`, or all of `s` when it is no longer.
pub open spec fn tail(s: Seq<char>, n: nat) -> Seq<char> {
    if s.len() > n {
        s.subrange(s.len() - n, s.len() as int)
    } else {
        s
    }
}

impl History {
    #[verifier::type_invariant]
    spec fn well_formed(self) -> bool {
        self.active <= self.actions.len()
    }

    /// An empty history.
    pub fn new() -> (r: History)
        ensures
            r@.actions == Seq::<RubiksAction>::empty(),
            r@.active == 0,
    {
        History { actions: Vec::new(), active: 0 }
    }

    /// How many moves are in effect.
    pub fn active(&self) -> (r: usize)
        ensures
            r == self@.active,
            r <= self@.actions.len(),
    {
        proof {
            use_type_invariant(self);
        }
        self.active
    }

    /// Enters a new move: the moves that were taken back are dropped and the
    /// new one follows the moves in effect.
    pub fn add_new_action(&mut self, action: RubiksAction)
        requires
            old(self)@.active < usize::MAX,
        ensures
            final(self)@.actions == old(self)@.actions.take(old(self)@.active as int).push(action),
            final(self)@.active == old(self)@.active + 1,
    {
        proof {
            use_type_invariant(&*self);
        }
        let active = self.active;
        self.active = 0;
        let mut actions: Vec<RubiksAction> = Vec::new();
        std::mem::swap(&mut actions, &mut self.actions);
        actions.truncate(active);
        actions.push(action);
        assert(actions@ =~= old(self)@.actions.take(old(self)@.active as int).push(action));
        *self = History { actions, active: active + 1 };
    }

    /// Takes back the last move in effect, if any, and returns the move that
    /// undoes it.
    pub fn try_move_back(&mut self) -> (r: Option<RubiksAction>)
        ensures
            final(self)@.actions == old(self)@.actions,
            old(self)@.active > 0 ==> r == Some(old(self)@.actions[old(self)@.active - 1].inverted())
                && final(self)@.active == old(self)@.active - 1,
            old(self)@.active == 0 ==> r is None && final(self)@.active == 0,
    {
        proof {
            use_type_invariant(&*self);
        }
        if self.active > 0 {
            let action = self.actions[self.active - 1].inverse();
            self.active = self.active - 1;
            Some(action)
        } else {
            None
        }
    }

    /// Makes again the first move that was taken back, if any, and returns it.
    pub fn try_move_forward(&mut self) -> (r: Option<RubiksAction>)
        ensures
            final(self)@.actions == old(self)@.actions,
            old(self)@.active < old(self)@.actions.len() ==> r == Some(
                old(self)@.actions[old(self)@.active as int],
            ) && final(self)@.active == old(self)@.active + 1,
            old(self)@.active >= old(self)@.actions.len() ==> r is None && final(self)@.active
                == old(self)@.active,
    {
        proof {
            use_type_invariant(&*self);
        }
        if self.active < self.actions.len() {
            self.active = self.active + 1;
            Some(self.actions[self.active - 1])
        } else {
            None
        }
    }

    /// Takes back every move in effect and returns the undoing moves, in the
    /// order they are made: the last move in effect is undone first.
    pub fn try_move_all_back(&mut self) -> (r: Vec<RubiksAction>)
        ensures
            final(self)@.actions == old(self)@.actions,
            final(self)@.active == 0,
            r@ == undo_moves(old(self)@.actions, old(self)@.active),
    {
        proof {
            use_type_invariant(&*self);
        }
        let ghost a0 = self@.actions;
        let ghost n0 = self@.active;
        let mut r: Vec<RubiksAction> = Vec::new();
        loop
            invariant
                self@.actions == a0,
                n0 <= a0.len(),
                self@.active <= n0,
                r@.len() == n0 - self@.active,
                forall|k: int| 0 <= k < r@.len() ==> #[trigger] r@[k] == a0[n0 - 1 - k].inverted(),
            ensures
                self@.active == 0,
                self@.actions == a0,
                r@.len() == n0,
                forall|k: int| 0 <= k < r@.len() ==> #[trigger] r@[k] == a0[n0 - 1 - k].inverted(),
            decreases self@.active,
        {
            match self.try_move_back() {
                Some(undo) => {
                    r.push(undo);
                },
                None => {
                    break;
                },
            }
        }
        assert(r@ =~= undo_moves(a0, n0));
        r
    }

    /// Makes again every move that was taken back and returns them, in order.
    pub fn try_move_all_forward(&mut self) -> (r: Vec<RubiksAction>)
        ensures
            final(self)@.actions == old(self)@.actions,
            final(self)@.active == old(self)@.actions.len(),
            r@ == old(self)@.actions.subrange(old(self)@.active as int, old(self)@.actions.len() as int),
    {
        proof {
            use_type_invariant(&*self);
        }
        let ghost a0 = self@.actions;
        let ghost n0 = self@.active;
        let mut r: Vec<RubiksAction> = Vec::new();
        loop
            invariant
                self@.actions == a0,
                n0 <= self@.active <= a0.len(),
                r@ == a0.subrange(n0 as int, self@.active as int),
            ensures
                self@.actions == a0,
                self@.active == a0.len(),
                r@ == a0.subrange(n0 as int, a0.len() as int),
            decreases a0.len() - self@.active,
        {
            match self.try_move_forward() {
                Some(redo) => {
                    r.push(redo);
                    assert(r@ =~= a0.subrange(n0 as int, self@.active as int));
                },
                None => {
                    break;
                },
            }
        }
        r
    }

    /// Forgets every move.
    pub fn clear(&mut self)
        ensures
            final(self)@.actions == Seq::<RubiksAction>::empty(),
            final(self)@.active == 0,
    {
        *self = History::new();
    }

    /// The two lines shown: the moves in effect (only the last
    /// `HISTORY_TAIL` characters) and the moves taken back.
    pub fn texts(&self, wide_w: bool) -> (r: (String, String))
        ensures
            r.0@ == tail(
                notation_line(self@.actions.take(self@.active as int), wide_w),
                HISTORY_TAIL as nat,
            ),
            r.1@ == notation_line(self@.actions.skip(self@.active as int), wide_w),
    {
        proof {
            use_type_invariant(self);
        }
        let text_left = notation_text(&self.actions, 0, self.active, wide_w);
        let text_right = notation_text(&self.actions, self.active, self.actions.len(), wide_w);
        proof {
            assert(self.actions@.subrange(0, self.active as int) =~= self@.actions.take(self@.active as int));
            assert(self.actions@.subrange(self.active as int, self.actions@.len() as int)
                =~= self@.actions.skip(self@.active as int));
        }
        (last_chars(text_left, HISTORY_TAIL), text_right)
    }
}

/// The moves `actions[from..to]` written one after another, each followed by a space.
pub fn notation_text(actions: &Vec<RubiksAction>, from: usize, to: usize, wide_w: bool) -> (r: String)
    requires
        from <= to <= actions@.len(),
    ensures
        r@ == notation_line(actions@.subrange(from as int, to as int), wide_w),
        vstd::utf8::is_ascii_chars(r@),
{
    let mut text = String::new();
    let mut k = from;
    proof {
        assert(actions@.subrange(from as int, from as int) =~= Seq::<RubiksAction>::empty());
    }
    while k < to
        invariant
            from <= k <= to <= actions@.len(),
            text@ == notation_line(actions@.subrange(from as int, k as int), wide_w),
        decreases to - k,
    {
        text.append(actions[k].to_string_notation(wide_w));
        text.append(" ");
        proof {
            reveal_strlit(" ");
            let s = actions@.subrange(from as int, k + 1);
            assert(s.drop_last() =~= actions@.subrange(from as int, k as int));
            assert(s.last() == actions@[k as int]);
        }
        k = k + 1;
    }
    proof {
        lemma_notation_line_ascii(actions@.subrange(from as int, to as int), wide_w);
    }
    text
}

/// The last `n` characters of an ASCII text, or all of it when it is no longer;
/// for ASCII, characters and bytes are one and the same.
fn last_chars(text: String, n: usize) -> (r: String)
    requires
        vstd::utf8::is_ascii_chars(text@),
    ensures
        r@ == tail(text@, n as nat),
{
    let whole = text.as_str();
    let len = whole.unicode_len();
    if len > n {
        let shown = whole.substring_ascii(len - n, len);
        shown.to_owned()
    } else {
        text
    }
}

/// Every character of a written list of moves is ASCII.
proof fn lemma_notation_line_ascii(v: Seq<RubiksAction>, wide_w: bool)
    ensures
        vstd::utf8::is_ascii_chars(notation_line(v, wide_w)),
    decreases v.len(),
{
    if v.len() > 0 {
        lemma_notation_line_ascii(v.drop_last(), wide_w);
        let a = notation_line(v.drop_last(), wide_w);
        let b = v.last().notation(wide_w);
        let c = a + b + seq![' '];
        assert forall|i: int| 0 <= i < c.len() implies '\0' <= #[trigger] c[i] <= '\u{7f}' by {
            if i >= a.len() + b.len() {
            } else if i >= a.len() {
                assert(c[i] == b[i - a.len()]);
            } else {
                assert(c[i] == a[i]);
            }
        }
    }
}

/// After a move is taken back, the cube shows the moves still in effect:
/// the undoing move turns the cube of the first `active` moves into the cube
/// of the first `active - 1`.
pub proof fn law_move_back_replays(g0: Grid, actions: Seq<RubiksAction>, active: nat)
    requires
        0 < active <= actions.len(),
    ensures
        apply_action(apply_seq(g0, actions.take(active as int)), actions[active - 1].inverted())
            == apply_seq(g0, actions.take(active - 1)),
{
    let before = actions.take(active - 1);
    assert(actions.take(active as int) =~= before.push(actions[active - 1]));
    lemma_apply_seq_push(g0, before, actions[active - 1]);
    law_action_then_inverse(apply_seq(g0, before), actions[active - 1]);
}

/// After a move is made again, the cube shows the moves in effect.
pub proof fn law_move_forward_replays(g0: Grid, actions: Seq<RubiksAction>, active: nat)
    requires
        active < actions.len(),
    ensures
        apply_action(apply_seq(g0, actions.take(active as int)), actions[active as int])
            == apply_seq(g0, actions.take(active + 1int)),
{
    assert(actions.take(active + 1int) =~= actions.take(active as int).push(actions[active as int]));
    lemma_apply_seq_push(g0, actions.take(active as int), actions[active as int]);
}

/// After a new move is entered, the cube shows the moves in effect.
pub proof fn law_new_action_replays(
    g0: Grid,
    actions: Seq<RubiksAction>,
    active: nat,
    action: RubiksAction,
)
    requires
        active <= actions.len(),
    ensures
        ({
            let entered = actions.take(active as int).push(action);
            apply_action(apply_seq(g0, actions.take(active as int)), action) == apply_seq(
                g0,
                entered.take(active + 1int),
            )
        }),
{
    let entered = actions.take(active as int).push(action);
    assert(entered.take(active + 1int) =~= entered);
    lemma_apply_seq_push(g0, actions.take(active as int), action);
}

/// Taking back every move in effect returns the cube to where the history began.
pub proof fn law_move_all_back_replays(g0: Grid, actions: Seq<RubiksAction>, active: nat)
    requires
        active <= actions.len(),
    ensures
        apply_seq(apply_seq(g0, actions.take(active as int)), undo_moves(actions, active)) == g0,
    decreases active,
{
    if active == 0 {
        assert(actions.take(0) =~= Seq::<RubiksAction>::empty());
        assert(undo_moves(actions, 0) =~= Seq::<RubiksAction>::empty());
    } else {
        let u = undo_moves(actions, active);
        assert(u[0] == actions[active - 1].inverted());
        assert(u.drop_first() =~= undo_moves(actions, (active - 1) as nat));
        law_move_back_replays(g0, actions, active);
        law_move_all_back_replays(g0, actions, (active - 1) as nat);
    }
}

/// Making again every move taken back brings the cube to all the moves entered.
pub proof fn law_move_all_forward_replays(g0: Grid, actions: Seq<RubiksAction>, active: nat)
    requires
        active <= actions.len(),
    ensures
        apply_seq(apply_seq(g0, actions.take(active as int)), actions.subrange(active as int, actions.len() as int))
            == apply_seq(g0, actions),
{
    lemma_apply_seq_concat(g0, actions.take(active as int), actions.subrange(active as int, actions.len() as int));
    assert(actions.take(active as int) + actions.subrange(active as int, actions.len() as int) =~= actions);
}

} // verus!
