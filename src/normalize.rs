use vstd::prelude::*;

use crate::component::{components_view, Component, ComponentView};

verus! {

/// Lexical normalization, left to right: `.` is dropped, `..` cancels the
/// `Normal` segment just before it, and a `..` with nothing to cancel is kept.
pub open spec fn spec_normalize(cs: Seq<ComponentView>) -> Seq<ComponentView>
    decreases cs.len(),
{
    if cs.len() == 0 {
        seq![]
    } else {
        let acc = spec_normalize(cs.drop_last());
        match cs.last() {
            ComponentView::CurDir => acc,
            ComponentView::ParentDir => if acc.len() > 0 && acc.last() is Normal {
                acc.drop_last()
            } else {
                acc.push(ComponentView::ParentDir)
            },
            c => acc.push(c),
        }
    }
}

/// The text of one segment in a serialized path.
pub open spec fn segment_text(c: ComponentView) -> Seq<char> {
    match c {
        ComponentView::RootDir => seq![],
        ComponentView::CurDir => seq!['.'],
        ComponentView::ParentDir => seq!['.', '.'],
        ComponentView::Normal(s) => s,
    }
}

/// The segments' texts with `sep` between each two of them.
pub open spec fn spec_join(cs: Seq<ComponentView>, sep: Seq<char>) -> Seq<char>
    decreases cs.len(),
{
    if cs.len() == 0 {
        seq![]
    } else if cs.len() == 1 {
        segment_text(cs[0])
    } else {
        spec_join(cs.drop_last(), sep) + sep + segment_text(cs.last())
    }
}

/// Normalizing a tail of a sequence first changes nothing:
/// `normalize(a + normalize(b)) == normalize(a + b)`.
pub proof fn lemma_normalize_tail(a: Seq<ComponentView>, b: Seq<ComponentView>)
    ensures
        spec_normalize(a + spec_normalize(b)) == spec_normalize(a + b),
    decreases b.len(),
{
    if b.len() == 0 {
        assert(a + b =~= a);
        assert(a + spec_normalize(b) =~= a);
    } else {
        let b1 = b.drop_last();
        let c = b.last();
        let m = spec_normalize(b1);
        lemma_normalize_tail(a, b1);
        assert((a + b).drop_last() =~= a + b1);
        match c {
            ComponentView::CurDir => {},
            ComponentView::ParentDir => {
                if m.len() > 0 && m.last() is Normal {
                    let m1 = m.drop_last();
                    assert((a + m).drop_last() =~= a + m1);
                    assert(spec_normalize(a + m) == spec_normalize(a + m1).push(m.last()));
                    assert(spec_normalize(a + m).drop_last() =~= spec_normalize(a + m1));
                } else {
                    assert((a + m.push(c)).drop_last() =~= a + m);
                }
            },
            _ => {
                assert((a + m.push(c)).drop_last() =~= a + m);
            },
        }
    }
}

/// Normalization is idempotent: normalizing a normalized sequence gives it back.
pub proof fn lemma_normalize_idempotent(cs: Seq<ComponentView>)
    ensures
        spec_normalize(spec_normalize(cs)) == spec_normalize(cs),
{
    let e = Seq::<ComponentView>::empty();
    lemma_normalize_tail(e, cs);
    assert(e + spec_normalize(cs) =~= spec_normalize(cs));
    assert(e + cs =~= cs);
}

/// Normalizes a component sequence lexically (see [`spec_normalize`]).
pub fn normalize(cs: &Vec<Component>) -> (r: Vec<Component>)
    ensures
        components_view(r@) == spec_normalize(components_view(cs@)),
{
    let mut out: Vec<Component> = Vec::new();
    let mut i: usize = 0;
    while i < cs.len()
        invariant
            i <= cs.len(),
            components_view(out@) == spec_normalize(components_view(cs@.take(i as int))),
        decreases cs.len() - i,
    {
        let ghost before = components_view(out@);
        assert(components_view(cs@.take(i + 1)).drop_last() =~= components_view(cs@.take(i as int)));
        match &cs[i] {
            Component::CurDir => {},
            Component::ParentDir => {
                let cancels = out.len() > 0 && matches!(out[out.len() - 1], Component::Normal(_));
                if cancels {
                    out.pop();
                    assert(components_view(out@) =~= before.drop_last());
                } else {
                    out.push(Component::ParentDir);
                    assert(components_view(out@) =~= before.push(ComponentView::ParentDir));
                }
            },
            Component::RootDir => {
                out.push(Component::RootDir);
                assert(components_view(out@) =~= before.push(ComponentView::RootDir));
            },
            Component::Normal(s) => {
                out.push(Component::Normal(s.clone()));
                assert(components_view(out@) =~= before.push(ComponentView::Normal(s@)));
            },
        }
        i += 1;
    }
    assert(cs@.take(cs.len() as int) =~= cs@);
    out
}

/// Serializes segments, with `sep` between each two of them.
pub fn join_components(cs: &Vec<Component>, sep: &str) -> (r: String)
    ensures
        r@ == spec_join(components_view(cs@), sep@),
{
    let mut out = String::new();
    let mut i: usize = 0;
    while i < cs.len()
        invariant
            i <= cs.len(),
            out@ == spec_join(components_view(cs@.take(i as int)), sep@),
        decreases cs.len() - i,
    {
        assert(components_view(cs@.take(i + 1)).drop_last() =~= components_view(cs@.take(i as int)));
        if i > 0 {
            out.append(sep);
        }
        proof {
            reveal_strlit(".");
            reveal_strlit("..");
        }
        match &cs[i] {
            Component::RootDir => {},
            Component::CurDir => out.append("."),
            Component::ParentDir => out.append(".."),
            Component::Normal(s) => out.append(s.as_str()),
        }
        assert(out@ =~= spec_join(components_view(cs@.take(i + 1)), sep@));
        i += 1;
    }
    assert(cs@.take(cs.len() as int) =~= cs@);
    out
}

} // verus!
