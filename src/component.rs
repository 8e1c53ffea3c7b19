use vstd::prelude::*;

verus! {

/// One element of a path once its prefix, if any, has been taken off.
pub enum Component {
    /// The root marker of an absolute path.
    RootDir,
    /// A `.` segment.
    CurDir,
    /// A `..` segment.
    ParentDir,
    /// An ordinary segment, case and punctuation kept.
    Normal(String),
}

/// Mathematical model of a [`Component`].
pub enum ComponentView {
    RootDir,
    CurDir,
    ParentDir,
    Normal(Seq<char>),
}

impl View for Component {
    type V = ComponentView;

    open spec fn view(&self) -> ComponentView {
        match self {
            Component::RootDir => ComponentView::RootDir,
            Component::CurDir => ComponentView::CurDir,
            Component::ParentDir => ComponentView::ParentDir,
            Component::Normal(s) => ComponentView::Normal(s@),
        }
    }
}

/// The prefix that starts a Windows path.
pub enum WindowsPrefix {
    /// `C:`
    Disk(char),
    /// `\\?\C:`
    VerbatimDisk(char),
    /// `\\?\UNC\host\share`
    VerbatimUnc(String, String),
    /// `\\?\name`
    Verbatim(String),
    /// `\\.\device`
    DeviceNs(String),
    /// `\\host\share`
    Unc(String, String),
}

/// Mathematical model of a [`WindowsPrefix`].
pub enum PrefixView {
    Disk(char),
    VerbatimDisk(char),
    VerbatimUnc(Seq<char>, Seq<char>),
    Verbatim(Seq<char>),
    DeviceNs(Seq<char>),
    Unc(Seq<char>, Seq<char>),
}

impl View for WindowsPrefix {
    type V = PrefixView;

    open spec fn view(&self) -> PrefixView {
        match self {
            WindowsPrefix::Disk(c) => PrefixView::Disk(*c),
            WindowsPrefix::VerbatimDisk(c) => PrefixView::VerbatimDisk(*c),
            WindowsPrefix::VerbatimUnc(h, s) => PrefixView::VerbatimUnc(h@, s@),
            WindowsPrefix::Verbatim(n) => PrefixView::Verbatim(n@),
            WindowsPrefix::DeviceNs(n) => PrefixView::DeviceNs(n@),
            WindowsPrefix::Unc(h, s) => PrefixView::Unc(h@, s@),
        }
    }
}

/// One element of a Windows path, as the Windows-path parser yields it.
pub enum WindowsComponent {
    Prefix(WindowsPrefix),
    RootDir,
    CurDir,
    ParentDir,
    Normal(String),
}

/// Mathematical model of a [`WindowsComponent`].
pub enum WindowsComponentView {
    Prefix(PrefixView),
    RootDir,
    CurDir,
    ParentDir,
    Normal(Seq<char>),
}

impl View for WindowsComponent {
    type V = WindowsComponentView;

    open spec fn view(&self) -> WindowsComponentView {
        match self {
            WindowsComponent::Prefix(p) => WindowsComponentView::Prefix(p@),
            WindowsComponent::RootDir => WindowsComponentView::RootDir,
            WindowsComponent::CurDir => WindowsComponentView::CurDir,
            WindowsComponent::ParentDir => WindowsComponentView::ParentDir,
            WindowsComponent::Normal(s) => WindowsComponentView::Normal(s@),
        }
    }
}

/// The models of a sequence of components.
pub open spec fn components_view(cs: Seq<Component>) -> Seq<ComponentView> {
    cs.map_values(|c: Component| c@)
}

/// The models of a sequence of Windows components.
pub open spec fn windows_components_view(cs: Seq<WindowsComponent>) -> Seq<WindowsComponentView> {
    cs.map_values(|c: WindowsComponent| c@)
}

} // verus!
