use vstd::prelude::*;

use typed_path::Utf8UnixComponent as Uc;
use typed_path::Utf8WindowsComponent as Wc;
use typed_path::Utf8WindowsPrefix::{DeviceNS, Disk, Verbatim, VerbatimDisk, VerbatimUNC, UNC};
use typed_path::{Utf8UnixPath, Utf8WindowsPath};

use crate::component::{
    components_view, windows_components_view, Component, ComponentView, WindowsComponent,
    WindowsComponentView, WindowsPrefix,
};

verus! {

/// The components into which Windows path syntax splits a text.
pub uninterp spec fn windows_components_of(path: Seq<char>) -> Seq<WindowsComponentView>;

/// The components into which guest (Unix) path syntax splits a text.
pub uninterp spec fn unix_components_of(path: Seq<char>) -> Seq<ComponentView>;

/// Relies on typed_path's `Utf8WindowsPath::components` (with `Utf8WindowsPrefixComponent::kind`)
/// to split a Windows path into its prefix and components; the result depends on the text alone.
#[verifier::external_body]
pub(crate) fn windows_components(path: &str) -> (r: Vec<WindowsComponent>)
    ensures
        windows_components_view(r@) == windows_components_of(path@),
{
    Utf8WindowsPath::new(path).components().map(|c| match c {
        Wc::Prefix(p) => WindowsComponent::Prefix(match p.kind() {
            Disk(d) => WindowsPrefix::Disk(d),
            VerbatimDisk(d) => WindowsPrefix::VerbatimDisk(d),
            VerbatimUNC(h, s) => WindowsPrefix::VerbatimUnc(h.to_string(), s.to_string()),
            Verbatim(n) => WindowsPrefix::Verbatim(n.to_string()),
            DeviceNS(n) => WindowsPrefix::DeviceNs(n.to_string()),
            UNC(h, s) => WindowsPrefix::Unc(h.to_string(), s.to_string()),
        }),
        Wc::RootDir => WindowsComponent::RootDir,
        Wc::CurDir => WindowsComponent::CurDir,
        Wc::ParentDir => WindowsComponent::ParentDir,
        Wc::Normal(n) => WindowsComponent::Normal(n.to_string()),
    }).collect()
}

/// Relies on typed_path's `Utf8UnixPath::components` to split a guest path into its
/// components; the result depends on the text alone.
#[verifier::external_body]
pub(crate) fn unix_components(path: &str) -> (r: Vec<Component>)
    ensures
        components_view(r@) == unix_components_of(path@),
{
    Utf8UnixPath::new(path).components().map(|c| match c {
        Uc::RootDir => Component::RootDir,
        Uc::CurDir => Component::CurDir,
        Uc::ParentDir => Component::ParentDir,
        Uc::Normal(n) => Component::Normal(n.to_string()),
    }).collect()
}

} // verus!
