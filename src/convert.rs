use vstd::prelude::*;

use crate::component::{
    components_view, windows_components_view, Component, ComponentView, PrefixView,
    WindowsComponent, WindowsComponentView, WindowsPrefix,
};
use crate::parse::{unix_components, unix_components_of, windows_components, windows_components_of};
use crate::normalize::{join_components, normalize, spec_join, spec_normalize};

verus! {

/// Why a path could not be converted.
#[derive(Debug, Clone, Copy, PartialEq, Eq, Structural)]
pub enum Error {
    /// The input path is relative and thus cannot be converted.
    RelativePath,
    /// The input path prefix is invalid.
    InvalidPrefix,
}

/// A conversion result with the string replaced by its characters.
pub open spec fn result_view(r: Result<String, Error>) -> Result<Seq<char>, Error> {
    match r {
        Ok(s) => Ok(s@),
        Err(e) => Err(e),
    }
}

/// `c` is an ASCII capital letter.
pub open spec fn is_ascii_upper(c: char) -> bool {
    'A' <= c && c <= 'Z'
}

/// `c` is an ASCII small letter.
pub open spec fn is_ascii_lower(c: char) -> bool {
    'a' <= c && c <= 'z'
}

/// `c` with an ASCII capital letter made small; every other character kept.
pub open spec fn ascii_lower(c: char) -> char {
    if is_ascii_upper(c) {
        ((c as u8) + 32) as char
    } else {
        c
    }
}

/// `c` with an ASCII small letter made capital; every other character kept.
pub open spec fn ascii_upper(c: char) -> char {
    if is_ascii_lower(c) {
        ((c as u8) - 32) as char
    } else {
        c
    }
}

fn to_ascii_lower(c: char) -> (r: char)
    ensures
        r == ascii_lower(c),
{
    if c >= 'A' && c <= 'Z' {
        ((c as u8) + 32) as char
    } else {
        c
    }
}

fn to_ascii_upper(c: char) -> (r: char)
    ensures
        r == ascii_upper(c),
{
    if c >= 'a' && c <= 'z' {
        ((c as u8) - 32) as char
    } else {
        c
    }
}

/// The two texts are equal once ASCII letters are made small.
pub open spec fn eq_ignore_ascii_case(a: Seq<char>, b: Seq<char>) -> bool {
    a.len() == b.len() && forall|i: int| 0 <= i < a.len() ==> ascii_lower(a[i]) == ascii_lower(b[i])
}

/// The host name by which a Windows host reaches the guest's own root.
pub open spec fn loopback_host() -> Seq<char> {
    seq!['w', 's', 'l', '.', 'l', 'o', 'c', 'a', 'l', 'h', 'o', 's', 't']
}

fn is_loopback_host(h: &String) -> (r: bool)
    ensures
        r == eq_ignore_ascii_case(h@, loopback_host()),
{
    let name = "wsl.localhost";
    proof {
        reveal_strlit("wsl.localhost");
    }
    assert(name@ =~= loopback_host());
    let n = h.as_str().unicode_len();
    if n != name.unicode_len() {
        return false;
    }
    let mut i: usize = 0;
    while i < n
        invariant
            n == h@.len(),
            n == loopback_host().len(),
            name@ == loopback_host(),
            i <= n,
            forall|j: int| 0 <= j < i ==> ascii_lower(h@[j]) == ascii_lower(loopback_host()[j]),
        decreases n - i,
    {
        if to_ascii_lower(h.as_str().get_char(i)) != to_ascii_lower(name.get_char(i)) {
            return false;
        }
        i += 1;
    }
    true
}

/// The Windows components after the prefix, rewritten for the other side:
/// root markers dropped, dot segments and ordinary segments kept.
pub open spec fn windows_segments(ws: Seq<WindowsComponentView>) -> Seq<ComponentView>
    decreases ws.len(),
{
    if ws.len() == 0 {
        seq![]
    } else {
        windows_segments(ws.drop_last()) + windows_segment(ws.last())
    }
}

/// One Windows component rewritten for the guest side.
pub open spec fn windows_segment(w: WindowsComponentView) -> Seq<ComponentView> {
    match w {
        WindowsComponentView::CurDir => seq![ComponentView::CurDir],
        WindowsComponentView::ParentDir => seq![ComponentView::ParentDir],
        WindowsComponentView::Normal(s) => seq![ComponentView::Normal(s)],
        _ => seq![],
    }
}

/// The guest components after the drive segment, with root markers dropped.
pub open spec fn guest_segments(us: Seq<ComponentView>) -> Seq<ComponentView>
    decreases us.len(),
{
    if us.len() == 0 {
        seq![]
    } else {
        guest_segments(us.drop_last()) + guest_segment(us.last())
    }
}

/// One guest component rewritten for the Windows side.
pub open spec fn guest_segment(c: ComponentView) -> Seq<ComponentView> {
    match c {
        ComponentView::RootDir => seq![],
        _ => seq![c],
    }
}

/// The guest directory under which Windows drives are mounted.
pub open spec fn mnt() -> Seq<char> {
    seq!['m', 'n', 't']
}

/// The guest directory of a Windows drive: `/mnt/` and the letter made small.
pub open spec fn drive_root(letter: char) -> Seq<char> {
    seq!['/', 'm', 'n', 't', '/', ascii_lower(letter)]
}

/// A guest path under a drive: the drive directory, then each normalized segment
/// after a `/`. A `..` never cancels the drive directory.
pub open spec fn drive_text(letter: char, segments: Seq<ComponentView>) -> Seq<char> {
    let n = spec_normalize(segments);
    if n.len() == 0 {
        drive_root(letter)
    } else {
        drive_root(letter) + seq!['/'] + spec_join(n, seq!['/'])
    }
}

/// A guest path from the guest's own root: `/`, then the normalized segments joined by `/`.
pub open spec fn guest_text(segments: Seq<ComponentView>) -> Seq<char> {
    seq!['/'] + spec_join(spec_normalize(segments), seq!['/'])
}

/// A Windows path: the drive root `X:\`, then the normalized segments joined by `\`.
pub open spec fn windows_text(letter: char, segments: Seq<ComponentView>) -> Seq<char> {
    seq![ascii_upper(letter), ':', '\\'] + spec_join(spec_normalize(segments), seq!['\\'])
}

/// A parsed Windows path is absolute when its prefix is followed by a root marker.
pub open spec fn windows_is_absolute(ws: Seq<WindowsComponentView>) -> bool {
    ws.len() >= 2 && ws[0] is Prefix && ws[1] is RootDir
}

/// What converting a parsed Windows path to a guest path gives.
pub open spec fn spec_windows_to_wsl(ws: Seq<WindowsComponentView>) -> Result<Seq<char>, Error> {
    if !windows_is_absolute(ws) {
        Err(Error::RelativePath)
    } else {
        let rest = windows_segments(ws.subrange(1, ws.len() as int));
        match ws[0]->Prefix_0 {
            PrefixView::Disk(letter) => Ok(drive_text(letter, rest)),
            PrefixView::VerbatimDisk(letter) => Ok(drive_text(letter, rest)),
            PrefixView::VerbatimUnc(host, _) => if eq_ignore_ascii_case(host, loopback_host()) {
                Ok(guest_text(rest))
            } else {
                Err(Error::InvalidPrefix)
            },
            PrefixView::Verbatim(_) => Err(Error::InvalidPrefix),
            PrefixView::DeviceNs(_) => Err(Error::InvalidPrefix),
            PrefixView::Unc(_, _) => Err(Error::InvalidPrefix),
        }
    }
}

/// A parsed guest path is absolute when it starts with the root marker.
pub open spec fn guest_is_absolute(us: Seq<ComponentView>) -> bool {
    us.len() > 0 && us[0] is RootDir
}

/// The parsed guest path lies under `/mnt/<one character>`.
pub open spec fn guest_has_drive(us: Seq<ComponentView>) -> bool {
    &&& us.len() > 2
    &&& us[1] == ComponentView::Normal(mnt())
    &&& us[2] is Normal
    &&& us[2]->Normal_0.len() == 1
}

/// What converting a parsed guest path to a Windows path gives.
pub open spec fn spec_wsl_to_windows(us: Seq<ComponentView>) -> Result<Seq<char>, Error> {
    if !guest_is_absolute(us) {
        Err(Error::RelativePath)
    } else if !guest_has_drive(us) {
        Err(Error::InvalidPrefix)
    } else {
        Ok(windows_text(us[2]->Normal_0[0], guest_segments(us.subrange(3, us.len() as int))))
    }
}

/// Relies on `String::push`: appends one character at the end.
#[verifier::external_body]
fn push_char(s: &mut String, c: char)
    ensures
        final(s)@ == old(s)@.push(c),
{
    s.push(c);
}

/// Converts an already parsed Windows path to a guest path.
pub fn windows_components_to_wsl(ws: &Vec<WindowsComponent>) -> (r: Result<String, Error>)
    ensures
        result_view(r) == spec_windows_to_wsl(windows_components_view(ws@)),
{
    let ghost wv = windows_components_view(ws@);
    let absolute = ws.len() >= 2 && matches!(ws[0], WindowsComponent::Prefix(_))
        && matches!(ws[1], WindowsComponent::RootDir);
    if !absolute {
        return Err(Error::RelativePath);
    }
    let letter = match &ws[0] {
        WindowsComponent::Prefix(WindowsPrefix::Disk(c)) => Some(*c),
        WindowsComponent::Prefix(WindowsPrefix::VerbatimDisk(c)) => Some(*c),
        WindowsComponent::Prefix(WindowsPrefix::VerbatimUnc(host, _)) => {
            if !is_loopback_host(host) {
                return Err(Error::InvalidPrefix);
            }
            None
        },
        _ => {
            return Err(Error::InvalidPrefix);
        },
    };
    let mut dest: Vec<Component> = Vec::new();
    assert(wv.subrange(1, 1) =~= Seq::<WindowsComponentView>::empty());
    let mut i: usize = 1;
    while i < ws.len()
        invariant
            1 <= i <= ws.len(),
            wv == windows_components_view(ws@),
            components_view(dest@) == windows_segments(wv.subrange(1, i as int)),
        decreases ws.len() - i,
    {
        let ghost before = components_view(dest@);
        assert(wv.subrange(1, i + 1).drop_last() =~= wv.subrange(1, i as int));
        assert(wv.subrange(1, i + 1).last() == ws@[i as int]@);
        assert(windows_segments(wv.subrange(1, i + 1)) == windows_segments(wv.subrange(1, i as int))
            + windows_segment(ws@[i as int]@));
        match &ws[i] {
            WindowsComponent::CurDir => dest.push(Component::CurDir),
            WindowsComponent::ParentDir => dest.push(Component::ParentDir),
            WindowsComponent::Normal(s) => dest.push(Component::Normal(s.clone())),
            _ => {},
        }
        assert(components_view(dest@) =~= before + windows_segment(ws@[i as int]@));
        i += 1;
    }
    let ghost rest = windows_segments(wv.subrange(1, wv.len() as int));
    let normalized = normalize(&dest);
    let sep = "/";
    proof {
        reveal_strlit("/");
    }
    assert(sep@ =~= seq!['/']);
    let mut out = String::new();
    push_char(&mut out, '/');
    match letter {
        Some(c) => {
            let m = "mnt";
            proof {
                reveal_strlit("mnt");
            }
            assert(m@ =~= mnt());
            out.append(m);
            push_char(&mut out, '/');
            push_char(&mut out, to_ascii_lower(c));
            assert(out@ =~= drive_root(c));
            if normalized.len() > 0 {
                push_char(&mut out, '/');
                out.append(join_components(&normalized, sep).as_str());
            }
            assert(out@ =~= drive_text(c, rest));
        },
        None => {
            out.append(join_components(&normalized, sep).as_str());
            assert(out@ =~= guest_text(rest));
        },
    }
    Ok(out)
}

/// Converts an already parsed guest path to a Windows path.
pub fn wsl_components_to_windows(us: &Vec<Component>) -> (r: Result<String, Error>)
    ensures
        result_view(r) == spec_wsl_to_windows(components_view(us@)),
{
    let ghost uv = components_view(us@);
    if !(us.len() > 0 && matches!(us[0], Component::RootDir)) {
        return Err(Error::RelativePath);
    }
    if us.len() <= 2 {
        return Err(Error::InvalidPrefix);
    }
    let m = "mnt";
    proof {
        reveal_strlit("mnt");
    }
    assert(m@ =~= mnt());
    let is_mnt = match &us[1] {
        Component::Normal(s) => *s == String::from_str(m),
        _ => false,
    };
    if !is_mnt {
        return Err(Error::InvalidPrefix);
    }
    let letter = match &us[2] {
        Component::Normal(s) => {
            if s.as_str().unicode_len() != 1 {
                return Err(Error::InvalidPrefix);
            }
            s.as_str().get_char(0)
        },
        _ => {
            return Err(Error::InvalidPrefix);
        },
    };
    let mut dest: Vec<Component> = Vec::new();
    assert(uv.subrange(3, 3) =~= Seq::<ComponentView>::empty());
    let mut i: usize = 3;
    while i < us.len()
        invariant
            3 <= i <= us.len(),
            uv == components_view(us@),
            components_view(dest@) == guest_segments(uv.subrange(3, i as int)),
        decreases us.len() - i,
    {
        let ghost before = components_view(dest@);
        assert(uv.subrange(3, i + 1).drop_last() =~= uv.subrange(3, i as int));
        assert(uv.subrange(3, i + 1).last() == us@[i as int]@);
        match &us[i] {
            Component::CurDir => dest.push(Component::CurDir),
            Component::ParentDir => dest.push(Component::ParentDir),
            Component::Normal(s) => dest.push(Component::Normal(s.clone())),
            Component::RootDir => {},
        }
        assert(components_view(dest@) =~= before + guest_segment(us@[i as int]@));
        assert(components_view(dest@) =~= guest_segments(uv.subrange(3, i + 1)));
        i += 1;
    }
    let normalized = normalize(&dest);
    let sep = "\\";
    proof {
        reveal_strlit("\\");
    }
    assert(sep@ =~= seq!['\\']);
    let mut out = String::new();
    push_char(&mut out, to_ascii_upper(letter));
    push_char(&mut out, ':');
    push_char(&mut out, '\\');
    out.append(join_components(&normalized, sep).as_str());
    assert(out@ =~= windows_text(letter, guest_segments(uv.subrange(3, uv.len() as int))));
    Ok(out)
}

/// Converts a Windows path to a guest path.
///
/// The path must be absolute: a drive (`C:\...`), an extended-length drive
/// (`\\?\C:\...`), or the extended-length UNC form of the guest itself
/// (`\\?\UNC\wsl.localhost\<distro>\...`), which maps to the guest's root.
/// The result is normalized lexically below `/mnt/<drive letter>` (or below `/`
/// for the guest's own form): a `..` with nothing to cancel there is kept.
///
/// Fails with [`Error::RelativePath`] when the path is not absolute, and with
/// [`Error::InvalidPrefix`] for any other prefix or another UNC host.
pub fn windows_to_wsl(windows_path: &str) -> (r: Result<String, Error>)
    ensures
        result_view(r) == spec_windows_to_wsl(windows_components_of(windows_path@)),
{
    let components = windows_components(windows_path);
    windows_components_to_wsl(&components)
}

/// Converts a guest path under `/mnt/<drive letter>` to a Windows path.
///
/// The path must be absolute; the result is normalized lexically.
///
/// Fails with [`Error::RelativePath`] when the path does not start at the root,
/// and with [`Error::InvalidPrefix`] when it does not continue with `mnt` and a
/// one-character drive segment.
pub fn wsl_to_windows(wsl_path: &str) -> (r: Result<String, Error>)
    ensures
        result_view(r) == spec_wsl_to_windows(unix_components_of(wsl_path@)),
{
    let components = unix_components(wsl_path);
    wsl_components_to_windows(&components)
}

} // verus!
