//! Finding and detaching the template attribute from an annotation list.

use vstd::prelude::*;
use crate::model::{Attr, AttrSpec};

verus! {

/// Whether an annotation is the template attribute.
pub open spec fn is_display_attr(a: AttrSpec) -> bool {
    a.name == "display"@
}

/// Index of the first template attribute in the list, or -1 if there is none.
pub open spec fn first_display_index(attrs: Seq<AttrSpec>) -> int
    decreases attrs.len(),
{
    if attrs.len() == 0 {
        -1
    } else if is_display_attr(attrs[0]) {
        0
    } else {
        let rest = first_display_index(attrs.drop_first());
        if rest == -1 {
            -1
        } else {
            rest + 1
        }
    }
}

/// If position `i` holds a template attribute and no earlier position does,
/// then `i` is the first.
pub proof fn lemma_first_display_index_is(attrs: Seq<AttrSpec>, i: int)
    requires
        0 <= i < attrs.len(),
        is_display_attr(attrs[i]),
        forall|j: int| 0 <= j < i ==> !is_display_attr(#[trigger] attrs[j]),
    ensures
        first_display_index(attrs) == i,
    decreases i,
{
    if i > 0 {
        let rest = attrs.drop_first();
        assert(rest[i - 1] == attrs[i]);
        assert forall|j: int| 0 <= j < i - 1 implies !is_display_attr(#[trigger] rest[j]) by {
            assert(rest[j] == attrs[j + 1]);
        }
        lemma_first_display_index_is(rest, i - 1);
    }
}

/// Scans the annotation list for the first template attribute, removes it in
/// place (remaining annotations keep their relative order) and returns it;
/// returns nothing and leaves the list unchanged if there is none.
pub fn take_display_attr(attrs: &mut Vec<Attr>) -> (r: Option<Attr>)
    ensures
        first_display_index(old(attrs).deep_view()) == -1 ==> {
            &&& r is None
            &&& final(attrs).deep_view() == old(attrs).deep_view()
        },
        first_display_index(old(attrs).deep_view()) != -1 ==> {
            let i = first_display_index(old(attrs).deep_view());
            &&& r matches Some(a) && a.deep_view() == old(attrs).deep_view()[i]
            &&& final(attrs).deep_view() == old(attrs).deep_view().remove(i)
        },
{
    let ghost orig = attrs.deep_view();
    let trigger_word = "display".to_owned();
    let n = attrs.len();
    let mut i: usize = 0;
    while i < n
        invariant
            n == attrs@.len(),
            orig == attrs.deep_view(),
            orig == old(attrs).deep_view(),
            attrs@ == old(attrs)@,
            trigger_word@ == "display"@,
            0 <= i <= n,
            forall|j: int| 0 <= j < i ==> !is_display_attr(#[trigger] attrs.deep_view()[j]),
        decreases n - i,
    {
        // Compare this annotation's path against the trigger word.
        let is_trigger = attrs[i].name.eq(&trigger_word);
        proof {
            assert(attrs.deep_view()[i as int] == attrs@[i as int].deep_view());
        }
        if is_trigger {
            proof {
                assert(is_display_attr(orig[i as int]));
                lemma_first_display_index_is(orig, i as int);
                assert(first_display_index(orig) == i as int);
            }
            let a = attrs.remove(i);
            proof {
                assert(a.deep_view() == orig[i as int]);
                assert(attrs.deep_view() =~= orig.remove(i as int));
            }
            return Some(a);
        }
        i = i + 1;
    }
    proof {
        lemma_first_display_index_is_none(orig);
    }
    None
}

proof fn lemma_first_display_index_is_none(attrs: Seq<AttrSpec>)
    requires
        forall|j: int| 0 <= j < attrs.len() ==> !is_display_attr(#[trigger] attrs[j]),
    ensures
        first_display_index(attrs) == -1,
    decreases attrs.len(),
{
    if attrs.len() > 0 {
        let rest = attrs.drop_first();
        assert forall|j: int| 0 <= j < rest.len() implies !is_display_attr(#[trigger] rest[j]) by {
            assert(rest[j] == attrs[j + 1]);
        }
        lemma_first_display_index_is_none(rest);
    }
}

/// The rendered texts of an annotation list, in order.
pub open spec fn rendered_texts_of(attrs: Seq<AttrSpec>) -> Seq<Seq<char>> {
    attrs.map_values(|a: AttrSpec| a.rendered)
}

/// Collects the rendered text of each annotation, in order.
pub fn rendered_texts(attrs: &Vec<Attr>) -> (r: Vec<String>)
    ensures
        r.deep_view() == rendered_texts_of(attrs.deep_view()),
{
    let n = attrs.len();
    let mut out: Vec<String> = Vec::new();
    let mut i: usize = 0;
    while i < n
        invariant
            n == attrs@.len(),
            0 <= i <= n,
            out@.len() == i,
            forall|k: int| 0 <= k < i ==> (#[trigger] out@[k])@ == attrs@[k].rendered@,
        decreases n - i,
    {
        let ghost prev = out@;
        out.push(attrs[i].rendered.clone());
        proof {
            assert forall|k: int| 0 <= k < i + 1 implies (#[trigger] out@[k])@
                == attrs@[k].rendered@ by {
                if k < i {
                    assert(out@[k] == prev[k]);
                } else {
                    assert(out@[k] == attrs@[i as int].rendered);
                }
            }
        }
        i = i + 1;
    }
    proof {
        assert forall|k: int| 0 <= k < n implies #[trigger] out.deep_view()[k]
            == rendered_texts_of(attrs.deep_view())[k] by {
            assert(out.deep_view()[k] == out@[k]@);
            assert(attrs.deep_view()[k] == attrs@[k].deep_view());
        }
        assert(out.deep_view() =~= rendered_texts_of(attrs.deep_view()));
    }
    out
}

} // verus!
