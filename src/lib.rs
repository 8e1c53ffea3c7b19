//! Convert paths between a WSL guest and its Windows host.
//!
//! The conversion is purely lexical: no path is ever looked up on disk.
mod component;
mod convert;
mod normalize;
mod lemmas;
mod parse;

pub use component::{
    components_view, windows_components_view, Component, ComponentView, PrefixView,
    WindowsComponent, WindowsComponentView, WindowsPrefix,
};
pub use convert::{
    ascii_lower, ascii_upper, drive_root, drive_text, eq_ignore_ascii_case, guest_has_drive, guest_is_absolute,
    guest_segments, guest_text, loopback_host, result_view, spec_windows_to_wsl,
    spec_wsl_to_windows, windows_components_to_wsl, windows_is_absolute, windows_segments,
    windows_text, windows_to_wsl, wsl_components_to_windows, wsl_to_windows, Error,
};
pub use lemmas::{
    lemma_drive_maps_under_mnt, lemma_round_trip, lemma_verbatim_disk_transparent,
    windows_path_components,
};
pub use normalize::{
    join_components, lemma_normalize_idempotent, normalize, segment_text, spec_join,
    spec_normalize,
};
pub use parse::{unix_components_of, windows_components_of};
