use bg_core::backend::{
    available_backends, capability_for_kind, find_backend_by_name, get_backend_by_name,
    get_first_backend, select_backend, select_installed, supported_backend_names, AwwwBackend,
    MpvPaperBackend, SwaybgBackend,
};
use bg_core::{Backend, BackendCapability, BackendSpawnSpec, MediaKind, WallpaperMode};
use bg_core::OutputInfo;

fn swaybg() -> Backend {
    Backend::Swaybg(SwaybgBackend)
}

fn mpvpaper() -> Backend {
    Backend::MpvPaper(MpvPaperBackend)
}

fn awww() -> Backend {
    Backend::Awww(AwwwBackend)
}

#[test]
fn registry_lists_backends_in_registration_order() {
    let all = Backend::supported_backends();
    assert_eq!(all, vec![swaybg(), mpvpaper(), awww()]);
    let names: Vec<String> = all.iter().map(|b| b.name()).collect();
    assert_eq!(names, vec!["swaybg", "mpvpaper", "awww"]);
    assert_eq!(supported_backend_names(), names);
}

#[test]
fn swaybg_declares_static_only() {
    assert_eq!(swaybg().capabilities(), vec![BackendCapability::Static]);
    assert!(swaybg().has_capability(BackendCapability::Static));
    assert!(!swaybg().has_capability(BackendCapability::MultiOutput));
}

#[test]
fn mpvpaper_declares_multi_output() {
    assert!(mpvpaper().has_capability(BackendCapability::MultiOutput));
    assert!(mpvpaper().has_capability(BackendCapability::Video));
}

#[test]
fn unwired_backends_never_count_as_installed() {
    assert!(!mpvpaper().is_installed());
    assert!(!awww().is_installed());
}

#[test]
fn available_backends_is_at_most_swaybg() {
    let installed = available_backends();
    assert!(installed.len() <= 1);
    if let Some(b) = installed.first() {
        assert_eq!(*b, swaybg());
    }
    // The probe is the only machine-dependent part, and it is consistent
    // with the per-backend check.
    assert_eq!(installed.is_empty(), !swaybg().is_installed());
}

#[test]
fn select_installed_keeps_flagged_backends_in_order() {
    let all = vec![swaybg(), mpvpaper(), awww()];
    let r = select_installed(&all, &vec![true, false, true]);
    assert_eq!(r, vec![swaybg(), awww()]);
    let none = select_installed(&all, &vec![false, false, false]);
    assert!(none.is_empty());
}

#[test]
fn find_backend_by_name_takes_the_first_match() {
    let installed = vec![swaybg(), mpvpaper()];
    assert_eq!(
        find_backend_by_name(&installed, &"mpvpaper".to_string()),
        Some(mpvpaper())
    );
    assert_eq!(find_backend_by_name(&installed, &"nothere".to_string()), None);
}

#[test]
fn select_backend_prefers_the_requested_name() {
    let installed = vec![swaybg(), mpvpaper()];
    let req = "mpvpaper".to_string();
    assert_eq!(select_backend(Some(&req), &installed), Some(mpvpaper()));
}

#[test]
fn select_backend_falls_back_to_the_first_installed() {
    let installed = vec![swaybg(), mpvpaper()];
    let req = "not-a-backend".to_string();
    assert_eq!(select_backend(Some(&req), &installed), Some(swaybg()));
    assert_eq!(select_backend(None, &installed), Some(swaybg()));
}

#[test]
fn select_backend_with_nothing_installed_is_none() {
    let req = "swaybg".to_string();
    assert_eq!(select_backend(Some(&req), &Vec::new()), None);
}

#[test]
fn lookup_by_name_answers_among_installed_only() {
    // Whatever this machine has, only swaybg can ever be found, under its
    // own name.
    let r = get_backend_by_name(&"swaybg".to_string());
    if let Some(b) = r {
        assert_eq!(b, swaybg());
    }
    assert_eq!(get_backend_by_name(&"mpvpaper".to_string()), None);
    if let Some(b) = get_first_backend() {
        assert_eq!(b, swaybg());
    }
}

#[test]
fn capabilities_match_media_kinds() {
    assert_eq!(
        capability_for_kind(MediaKind::StaticImage),
        Some(BackendCapability::Static)
    );
    assert_eq!(
        capability_for_kind(MediaKind::AnimatedImage),
        Some(BackendCapability::Animated)
    );
    assert_eq!(capability_for_kind(MediaKind::Video), Some(BackendCapability::Video));
    assert_eq!(capability_for_kind(MediaKind::Unsupported), None);
    assert_eq!(capability_for_kind(MediaKind::Any), None);
}

fn output_named(name: &str) -> OutputInfo {
    OutputInfo {
        protocol_id: 1,
        name: name.to_string(),
        description: String::new(),
        x: 0,
        y: 0,
        scale: 1,
        physical_width: 0,
        physical_height: 0,
        make: String::new(),
        model: String::new(),
        subpixel_orientation: String::new(),
        output_transform: String::new(),
        modes: Vec::new(),
    }
}

#[test]
fn swaybg_arguments_name_the_output_and_the_image() {
    let spec = BackendSpawnSpec {
        media: "/media/a.png".to_string(),
        mode: WallpaperMode::Fill,
        output: output_named("HDMI-A-1"),
        extra_args: Vec::new(),
    };
    let args = SwaybgBackend::spawn_args(&spec);
    assert_eq!(args, vec!["-o", "HDMI-A-1", "-i", "/media/a.png"]);
}
