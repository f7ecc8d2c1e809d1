use vstd::prelude::*;

verus! {

/// One entry of the rotation: an identifier fixed at creation and the text
/// that is shown.
#[derive(Debug)]
pub struct Workout {
    pub id: u128,
    pub text: String,
}

/// Relies on uuid::Uuid::new_v4: a random version-4 identifier, read as its
/// 128-bit value by Uuid::as_u128. Nothing is known of the value drawn.
#[verifier::external_body]
fn random_id() -> (r: u128) {
    uuid::Uuid::new_v4().as_u128()
}

impl Workout {
    /// A new entry with the given text and a freshly drawn identifier.
    pub fn new(text: String) -> (r: Workout)
        ensures
            r.text == text,
    {
        Workout { id: random_id(), text }
    }

}

impl Clone for Workout {
    fn clone(&self) -> (r: Workout)
        ensures
            r == *self,
    {
        Workout { id: self.id, text: self.text.clone() }
    }
}

/// The shown texts of a list of entries, in list order.
pub open spec fn texts_of(ws: Seq<Workout>) -> Seq<Seq<char>> {
    ws.map_values(|w: Workout| w.text@)
}

/// No two entries of the list carry the same identifier.
pub open spec fn ids_unique(ws: Seq<Workout>) -> bool {
    forall|i: int, j: int|
        0 <= i < ws.len() && 0 <= j < ws.len() && i != j ==> #[trigger] ws[i].id != #[trigger] ws[j].id
}

/// No two entries of the list show the same text.
pub open spec fn texts_unique(ws: Seq<Workout>) -> bool {
    forall|i: int, j: int|
        0 <= i < ws.len() && 0 <= j < ws.len() && i != j ==> #[trigger] ws[i].text@
            != #[trigger] ws[j].text@
}

/// Some entry of the list shows text `t` (exact, case-sensitive match).
pub open spec fn has_text(ws: Seq<Workout>, t: Seq<char>) -> bool {
    exists|i: int| 0 <= i < ws.len() && #[trigger] ws[i].text@ == t
}

/// Some entry whose identifier differs from `id` shows text `t`.
pub open spec fn other_has_text(ws: Seq<Workout>, id: u128, t: Seq<char>) -> bool {
    exists|i: int| 0 <= i < ws.len() && ws[i].id != id && #[trigger] ws[i].text@ == t
}

/// `p` is the first position of the list that holds identifier `id`.
pub open spec fn is_first_position(ws: Seq<Workout>, id: u128, p: int) -> bool {
    &&& 0 <= p < ws.len()
    &&& ws[p].id == id
    &&& forall|q: int| 0 <= q < p ==> #[trigger] ws[q].id != id
}

/// Where the entry with identifier `id` stands: the first position holding
/// it, or `None` when no entry holds it.
pub open spec fn position_of(ws: Seq<Workout>, id: u128) -> Option<int> {
    if exists|p: int| is_first_position(ws, id, p) {
        Some(choose|p: int| is_first_position(ws, id, p))
    } else {
        None
    }
}

/// A list has at most one first position for an identifier.
pub proof fn lemma_first_position_unique(ws: Seq<Workout>, id: u128, p: int, q: int)
    requires
        is_first_position(ws, id, p),
        is_first_position(ws, id, q),
    ensures
        p == q,
{
    if p < q {
        assert(ws[p].id != id);
    } else if q < p {
        assert(ws[q].id != id);
    }
}

/// Once the first position of an identifier is known, `position_of` names it.
pub proof fn lemma_position_of_first(ws: Seq<Workout>, id: u128, p: int)
    requires
        is_first_position(ws, id, p),
    ensures
        position_of(ws, id) == Some(p),
{
    let c = choose|c: int| is_first_position(ws, id, c);
    lemma_first_position_unique(ws, id, p, c);
}

/// An identifier that no entry holds has no position.
pub proof fn lemma_position_of_absent(ws: Seq<Workout>, id: u128)
    requires
        forall|i: int| 0 <= i < ws.len() ==> #[trigger] ws[i].id != id,
    ensures
        position_of(ws, id) is None,
{
}

/// Finds the first position of the list that holds identifier `id`.
pub fn find_position(ws: &Vec<Workout>, id: u128) -> (r: Option<usize>)
    ensures
        match r {
            Some(p) => position_of(ws@, id) == Some(p as int),
            None => position_of(ws@, id) is None,
        },
{
    let mut i: usize = 0;
    while i < ws.len()
        invariant
            i <= ws@.len(),
            forall|q: int| 0 <= q < i ==> #[trigger] ws@[q].id != id,
        decreases ws@.len() - i,
    {
        if ws[i].id == id {
            proof {
                lemma_position_of_first(ws@, id, i as int);
            }
            return Some(i);
        }
        i = i + 1;
    }
    proof {
        lemma_position_of_absent(ws@, id);
    }
    None
}

} // verus!
