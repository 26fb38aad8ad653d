//! What binding a key to an action changes.

use vstd::prelude::*;

use crate::keybinds::{
    as_written, captured_key_fits_its_spec, defaults_of, rebound, row_of, spec_fits, spec_of,
    specs_of, triggers, with_spec, BindingView, KeyAction, KeyCode, KeyEvent,
};
use crate::text::lower_char;

verus! {

/// Whether two key presses are one but for the case of a letter.
pub open spec fn same_key(one: KeyEvent, other: KeyEvent) -> bool {
    one.modifiers == other.modifiers && match (one.code, other.code) {
        (KeyCode::Char(a), KeyCode::Char(b)) => lower_char(a) == lower_char(b),
        (a, b) => a == b,
    }
}

/// The spec that a key is captured as is fitted by that key and by no other.
pub proof fn captured_specs_tell_keys_apart(key: KeyEvent, other: KeyEvent)
    requires
        spec_of(key) is Some,
    ensures
        spec_fits(spec_of(key)->0, other) <==> same_key(as_written(key), other),
{
    captured_key_fits_its_spec(key);
}

proof fn lemma_row(rows: Seq<BindingView>, action: KeyAction)
    ensures
        row_of(rows, action) <= rows.len(),
        row_of(rows, action) < rows.len() ==> rows[row_of(rows, action) as int].action == action,
        forall|i: int|
            0 <= i < rows.len() && (#[trigger] rows[i]).action == action ==> row_of(rows, action)
                <= i,
    decreases rows.len(),
{
    if rows.len() > 0 {
        let rest = rows.drop_last();
        lemma_row(rest, action);
        assert forall|i: int| 0 <= i < rows.len() && (#[trigger] rows[i]).action == action implies
            row_of(rows, action) <= i by {
            if i < rest.len() {
                assert(rest[i].action == action);
            }
        }
    }
}

proof fn lemma_same_rows(one: Seq<BindingView>, other: Seq<BindingView>, action: KeyAction)
    requires
        one.len() == other.len(),
        forall|i: int| 0 <= i < one.len() ==> (#[trigger] one[i]).action == other[i].action,
    ensures
        row_of(one, action) == row_of(other, action),
    decreases one.len(),
{
    if one.len() > 0 {
        let a = one.drop_last();
        let b = other.drop_last();
        assert forall|i: int| 0 <= i < a.len() implies (#[trigger] a[i]).action == b[i].action by {
            assert(one[i].action == other[i].action);
        }
        assert(one[one.len() - 1].action == other[one.len() - 1].action);
        lemma_same_rows(a, b, action);
    }
}

/// Binding an action anew makes it listen to the new specs and to them alone;
/// every other action keeps its own, and what the defaults are stays.
pub proof fn rebinding_changes_one_action(
    rows: Seq<BindingView>,
    action: KeyAction,
    other: KeyAction,
    specs: Seq<Seq<char>>,
    key: KeyEvent,
)
    requires
        exists|i: int| 0 <= i < rows.len() && (#[trigger] rows[i]).action == action,
    ensures
        ({
            let after = rebound(rows, action, specs);
            &&& specs_of(after, action) == specs
            &&& triggers(after, action, key) <==> exists|i: int|
                0 <= i < specs.len() && #[trigger] spec_fits(specs[i], key)
            &&& other != action ==> specs_of(after, other) == specs_of(rows, other)
            &&& other != action ==> (triggers(after, other, key) <==> triggers(rows, other, key))
            &&& defaults_of(after, other) == defaults_of(rows, other)
            &&& after.len() == rows.len()
        }),
{
    let after = rebound(rows, action, specs);
    lemma_row(rows, action);
    lemma_row(rows, other);
    lemma_same_rows(rows, after, action);
    lemma_same_rows(rows, after, other);
    let i = choose|i: int| 0 <= i < rows.len() && (#[trigger] rows[i]).action == action;
    assert(row_of(rows, action) <= i);
}

/// Adding a spec to an action keeps those it had and adds no second copy.
pub proof fn added_specs_join_the_others(specs: Seq<Seq<char>>, spec: Seq<char>)
    ensures
        with_spec(specs, spec).contains(spec),
        specs.is_prefix_of(with_spec(specs, spec)),
        specs.contains(spec) ==> with_spec(specs, spec) == specs,
        !specs.contains(spec) ==> with_spec(specs, spec).len() == specs.len() + 1,
{
    assert(specs.push(spec)[specs.len() as int] == spec);
    assert(specs.is_prefix_of(specs.push(spec)));
    assert(specs.is_prefix_of(specs));
}

} // verus!
