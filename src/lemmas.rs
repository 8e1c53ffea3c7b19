use vstd::prelude::*;

use crate::component::{ComponentView, PrefixView, WindowsComponentView};
use crate::convert::{
    ascii_lower, ascii_upper, drive_root, drive_text, guest_has_drive, guest_is_absolute,
    guest_segment, guest_segments, is_ascii_lower, spec_windows_to_wsl, spec_wsl_to_windows,
    windows_is_absolute, windows_segment, windows_segments, windows_text,
};
use crate::normalize::{lemma_normalize_idempotent, spec_normalize};

verus! {

/// A Windows path with a drive prefix `X` (plain or extended-length), once
/// absolute, converts to a guest path that begins with `/mnt/` and `X` made lower
/// case, followed by its end or by `/`: a `..` never climbs above that directory.
pub proof fn lemma_drive_maps_under_mnt(ws: Seq<WindowsComponentView>, x: char)
    requires
        windows_is_absolute(ws),
        ws[0] == WindowsComponentView::Prefix(PrefixView::Disk(x)) || ws[0]
            == WindowsComponentView::Prefix(PrefixView::VerbatimDisk(x)),
    ensures
        spec_windows_to_wsl(ws) is Ok,
        spec_windows_to_wsl(ws)->Ok_0.len() >= 6,
        spec_windows_to_wsl(ws)->Ok_0.subrange(0, 6) == seq!['/', 'm', 'n', 't', '/', ascii_lower(x)],
        spec_windows_to_wsl(ws)->Ok_0.len() == 6 || spec_windows_to_wsl(ws)->Ok_0[6] == '/',
{
    let rest = windows_segments(ws.subrange(1, ws.len() as int));
    let t = drive_text(x, rest);
    assert(spec_windows_to_wsl(ws) == Ok::<Seq<char>, crate::convert::Error>(t));
    assert(t.subrange(0, 6) =~= drive_root(x));
}

/// A sequence with no root marker.
pub open spec fn root_free(cs: Seq<ComponentView>) -> bool {
    forall|i: int| 0 <= i < cs.len() ==> !(cs[i] is RootDir)
}

/// A guest component as the same component of a Windows path.
pub open spec fn windows_component(c: ComponentView) -> WindowsComponentView {
    match c {
        ComponentView::RootDir => WindowsComponentView::RootDir,
        ComponentView::CurDir => WindowsComponentView::CurDir,
        ComponentView::ParentDir => WindowsComponentView::ParentDir,
        ComponentView::Normal(s) => WindowsComponentView::Normal(s),
    }
}

/// The components of the Windows path `LETTER:\seg\seg...`: the drive prefix with
/// the letter made capital, the root, then the segments.
pub open spec fn windows_path_components(letter: char, segments: Seq<ComponentView>) -> Seq<
    WindowsComponentView,
> {
    seq![
        WindowsComponentView::Prefix(PrefixView::Disk(ascii_upper(letter))),
        WindowsComponentView::RootDir,
    ] + segments.map_values(|c: ComponentView| windows_component(c))
}

/// Rewritten guest components hold no root marker.
pub proof fn lemma_guest_segments_root_free(cs: Seq<ComponentView>)
    ensures
        root_free(guest_segments(cs)),
    decreases cs.len(),
{
    if cs.len() > 0 {
        lemma_guest_segments_root_free(cs.drop_last());
    }
}

/// Rewriting leaves a sequence without root markers unchanged.
pub proof fn lemma_guest_segments_of_root_free(cs: Seq<ComponentView>)
    requires
        root_free(cs),
    ensures
        guest_segments(cs) == cs,
    decreases cs.len(),
{
    if cs.len() > 0 {
        lemma_guest_segments_of_root_free(cs.drop_last());
        assert(cs.drop_last() + guest_segment(cs.last()) =~= cs);
    }
}

/// Normalization brings in no root marker.
pub proof fn lemma_normalize_root_free(cs: Seq<ComponentView>)
    requires
        root_free(cs),
    ensures
        root_free(spec_normalize(cs)),
    decreases cs.len(),
{
    if cs.len() > 0 {
        lemma_normalize_root_free(cs.drop_last());
        let acc = spec_normalize(cs.drop_last());
        assert forall|i: int| 0 <= i < spec_normalize(cs).len() implies !(
        spec_normalize(cs)[i] is RootDir) by {
            if i < acc.len() {
                assert(spec_normalize(cs)[i] == acc[i]);
            }
        }
    }
}

/// Guest components written as Windows components rewrite back to themselves,
/// root markers dropped.
pub proof fn lemma_windows_segments_of_guest(cs: Seq<ComponentView>)
    ensures
        windows_segments(cs.map_values(|c: ComponentView| windows_component(c)))
            == guest_segments(cs),
    decreases cs.len(),
{
    let w = cs.map_values(|c: ComponentView| windows_component(c));
    if cs.len() > 0 {
        lemma_windows_segments_of_guest(cs.drop_last());
        assert(w.drop_last() =~= cs.drop_last().map_values(|c: ComponentView| windows_component(c)));
        assert(windows_segment(w.last()) =~= guest_segment(cs.last()));
    } else {
        assert(w =~= Seq::<WindowsComponentView>::empty());
    }
}

/// Making an ASCII small letter capital and then small again gives it back.
pub proof fn lemma_ascii_case_round_trip(c: char)
    requires
        is_ascii_lower(c),
    ensures
        ascii_lower(ascii_upper(c)) == c,
{
}

/// Round trip: a guest path `/mnt/<letter>/...` with an ASCII small letter converts
/// to `LETTER:\` followed by its normalized segments, and the Windows path made of
/// those components converts back to the guest path normalized below `/mnt/<letter>`.
pub proof fn lemma_round_trip(us: Seq<ComponentView>)
    requires
        guest_is_absolute(us),
        guest_has_drive(us),
        is_ascii_lower(us[2]->Normal_0[0]),
    ensures
        ({
            let letter = us[2]->Normal_0[0];
            let rest = guest_segments(us.subrange(3, us.len() as int));
            &&& spec_wsl_to_windows(us) == Ok::<Seq<char>, crate::convert::Error>(
                windows_text(letter, rest),
            )
            &&& spec_windows_to_wsl(windows_path_components(letter, spec_normalize(rest)))
                == Ok::<Seq<char>, crate::convert::Error>(drive_text(letter, rest))
        }),
{
    let letter = us[2]->Normal_0[0];
    let g = guest_segments(us.subrange(3, us.len() as int));
    let n = spec_normalize(g);
    let w = windows_path_components(letter, n);
    let lifted = n.map_values(|c: ComponentView| windows_component(c));
    lemma_ascii_case_round_trip(letter);
    assert(w.subrange(1, w.len() as int) =~= seq![WindowsComponentView::RootDir] + lifted);
    lemma_windows_segments_prefix_root(lifted);
    lemma_windows_segments_of_guest(n);
    lemma_guest_segments_root_free(us.subrange(3, us.len() as int));
    lemma_normalize_root_free(g);
    lemma_guest_segments_of_root_free(n);
    lemma_normalize_idempotent(g);
    assert(drive_root(ascii_upper(letter)) =~= drive_root(letter));
    assert(spec_windows_to_wsl(w) == Ok::<Seq<char>, crate::convert::Error>(
        drive_text(ascii_upper(letter), n),
    ));
}

/// The extended-length form of a drive prefix converts as the plain form does:
/// replacing `\\?\X:` by `X:` in front of the same components leaves the result unchanged.
pub proof fn lemma_verbatim_disk_transparent(ws: Seq<WindowsComponentView>, x: char)
    requires
        ws.len() > 0,
        ws[0] == WindowsComponentView::Prefix(PrefixView::VerbatimDisk(x)),
    ensures
        spec_windows_to_wsl(ws.update(0, WindowsComponentView::Prefix(PrefixView::Disk(x))))
            == spec_windows_to_wsl(ws),
{
    let plain = ws.update(0, WindowsComponentView::Prefix(PrefixView::Disk(x)));
    assert(plain.subrange(1, plain.len() as int) =~= ws.subrange(1, ws.len() as int));
}

/// A root marker in front adds nothing to the rewritten segments.
pub proof fn lemma_windows_segments_prefix_root(ws: Seq<WindowsComponentView>)
    ensures
        windows_segments(seq![WindowsComponentView::RootDir] + ws) == windows_segments(ws),
    decreases ws.len(),
{
    let r = seq![WindowsComponentView::RootDir];
    if ws.len() == 0 {
        assert(r + ws =~= r);
        assert(r.drop_last() =~= Seq::<WindowsComponentView>::empty());
        assert(windows_segments(r) == windows_segments(r.drop_last()) + windows_segment(r.last()));
        assert(windows_segments(r) =~= Seq::<ComponentView>::empty());
    } else {
        assert((r + ws).drop_last() =~= r + ws.drop_last());
        assert((r + ws).last() == ws.last());
        lemma_windows_segments_prefix_root(ws.drop_last());
    }
}

} // verus!
