use bg_core::backend::SwaybgBackend;
use bg_core::orchestrator::{create_spawn_specs, plan_setup, MediaError};
use bg_core::{
    Backend, OrchestrationError, OutputInfo, SpawnSession, WallpaperMode,
};

fn output_named(id: u32, name: &str) -> OutputInfo {
    OutputInfo {
        protocol_id: id,
        name: name.to_string(),
        description: String::new(),
        x: 0,
        y: 0,
        scale: 1,
        physical_width: 0,
        physical_height: 0,
        make: String::new(),
        model: String::new(),
        subpixel_orientation: String::new(),
        output_transform: String::new(),
        modes: Vec::new(),
    }
}

fn swaybg() -> Backend {
    Backend::Swaybg(SwaybgBackend)
}

#[test]
fn specs_pair_outputs_with_media_in_order() {
    let outputs = vec![output_named(1, "DP-1"), output_named(2, "HDMI-A-1")];
    let media = vec!["/m/a.png".to_string(), "/m/b.png".to_string()];
    let specs = create_spawn_specs(outputs, media, WallpaperMode::Fill);
    assert_eq!(specs.len(), 2);
    assert_eq!(specs[0].output.name, "DP-1");
    assert_eq!(specs[0].media, "/m/a.png");
    assert_eq!(specs[1].output.name, "HDMI-A-1");
    assert_eq!(specs[1].media, "/m/b.png");
    assert!(matches!(specs[0].mode, WallpaperMode::Fill));
    assert!(specs[0].extra_args.is_empty());
}

#[test]
fn excess_outputs_get_no_spec() {
    // Three outputs, one media file: exactly one pairing, no reuse, no crash.
    let outputs = vec![
        output_named(1, "DP-1"),
        output_named(2, "DP-2"),
        output_named(3, "DP-3"),
    ];
    let media = vec!["/m/only.png".to_string()];
    let specs = create_spawn_specs(outputs, media, WallpaperMode::Fit);
    assert_eq!(specs.len(), 1);
    assert_eq!(specs[0].output.name, "DP-1");
    assert_eq!(specs[0].media, "/m/only.png");
}

#[test]
fn planning_pairs_at_most_one_output_per_media_file() {
    let outputs = vec![
        output_named(1, "DP-1"),
        output_named(2, "DP-2"),
        output_named(3, "DP-3"),
    ];
    let plan = plan_setup(
        outputs,
        None,
        None,
        vec![swaybg()],
        Ok(vec!["/m/only.png".to_string()]),
        WallpaperMode::Fill,
    )
    .unwrap();
    assert_eq!(plan.backend, swaybg());
    assert_eq!(plan.specs.len(), 1);
    assert_eq!(plan.specs[0].media, "/m/only.png");
}

#[test]
fn planning_draws_distinct_media_per_output() {
    let outputs = vec![output_named(1, "DP-1"), output_named(2, "DP-2")];
    let media: Vec<String> = (0..4).map(|i| format!("/m/{i}.png")).collect();
    let plan = plan_setup(
        outputs,
        None,
        None,
        vec![swaybg()],
        Ok(media.clone()),
        WallpaperMode::Center,
    )
    .unwrap();
    assert_eq!(plan.specs.len(), 2);
    assert_eq!(plan.specs[0].output.name, "DP-1");
    assert_eq!(plan.specs[1].output.name, "DP-2");
    assert_ne!(plan.specs[0].media, plan.specs[1].media);
    for s in &plan.specs {
        assert!(media.contains(&s.media));
    }
}

#[test]
fn no_outputs_at_all_fails_first() {
    let r = plan_setup(
        Vec::new(),
        None,
        None,
        vec![swaybg()],
        Ok(vec!["/m/a.png".to_string()]),
        WallpaperMode::Fill,
    );
    assert!(matches!(r, Err(OrchestrationError::NoOutputsAvailable)));
}

#[test]
fn a_filter_matching_nothing_fails() {
    let outputs = vec![output_named(1, "DP-1")];
    let r = plan_setup(
        outputs,
        Some(vec!["HDMI-A-1".to_string()]),
        None,
        vec![swaybg()],
        Ok(vec!["/m/a.png".to_string()]),
        WallpaperMode::Fill,
    );
    assert!(matches!(r, Err(OrchestrationError::NoOutputsSelected)));
}

#[test]
fn zero_installed_backends_fail_with_the_known_names() {
    // No backend installed: the run fails before anything is spawned, and
    // the error lists the statically known names for diagnostics.
    let outputs = vec![output_named(1, "DP-1")];
    let r = plan_setup(
        outputs,
        None,
        None,
        Vec::new(),
        Ok(vec!["/m/a.png".to_string()]),
        WallpaperMode::Fill,
    );
    match r {
        Err(OrchestrationError::NoBackendAvailable { known }) => {
            assert_eq!(known, vec!["swaybg", "mpvpaper", "awww"]);
        }
        other => panic!("expected NoBackendAvailable, got {other:?}"),
    }
}

#[test]
fn a_failed_media_scan_is_reported_with_its_path() {
    let outputs = vec![output_named(1, "DP-1")];
    let r = plan_setup(
        outputs,
        None,
        None,
        vec![swaybg()],
        Err(MediaError { path: "/m".to_string(), message: "permission denied".to_string() }),
        WallpaperMode::Fill,
    );
    match r {
        Err(OrchestrationError::MediaScanFailure { path, message }) => {
            assert_eq!(path, "/m");
            assert_eq!(message, "permission denied");
        }
        other => panic!("expected MediaScanFailure, got {other:?}"),
    }
}

#[test]
fn a_requested_backend_that_is_missing_falls_back() {
    let outputs = vec![output_named(1, "DP-1")];
    let plan = plan_setup(
        outputs,
        None,
        Some("mpvpaper".to_string()),
        vec![swaybg()],
        Ok(vec!["/m/a.png".to_string()]),
        WallpaperMode::Fill,
    )
    .unwrap();
    assert_eq!(plan.backend, swaybg());
}

fn two_spec_plan() -> Vec<bg_core::BackendSpawnSpec> {
    create_spawn_specs(
        vec![output_named(1, "DP-1"), output_named(2, "DP-2")],
        vec!["/m/a.png".to_string(), "/m/b.png".to_string()],
        WallpaperMode::Fill,
    )
}

#[test]
fn a_clean_session_yields_one_worker_per_spec() {
    let mut session = SpawnSession::new(swaybg(), two_spec_plan());
    let mut next_id: u64 = 100;
    while let Some(spec) = session.pending_spec() {
        assert!(!spec.media.is_empty());
        session.record_spawn_ok(next_id);
        next_id += 1;
    }
    assert!(session.next_rollback().is_none());
    let pool = session.finish().unwrap();
    assert_eq!(pool.len(), 2);
    assert_eq!(pool[0].worker, 100);
    assert_eq!(pool[1].worker, 101);
    assert!(pool.iter().all(|h| h.backend == swaybg()));
}

#[test]
fn a_failed_spawn_rolls_back_every_started_worker() {
    // Three specs; the second start fails. The one worker already started is
    // handed back for stopping, and the session ends with zero live workers
    // and a spawn failure naming the output that failed.
    let specs = create_spawn_specs(
        vec![
            output_named(1, "DP-1"),
            output_named(2, "DP-2"),
            output_named(3, "DP-3"),
        ],
        vec![
            "/m/a.png".to_string(),
            "/m/b.png".to_string(),
            "/m/c.png".to_string(),
        ],
        WallpaperMode::Fill,
    );
    let mut session = SpawnSession::new(swaybg(), specs);
    assert!(session.pending_spec().is_some());
    session.record_spawn_ok(11);
    assert!(session.pending_spec().is_some());
    session.record_spawn_err("spawn exploded".to_string());

    // No further spawns are offered; the started worker comes back, in
    // reverse spawn order, to be stopped.
    assert!(session.pending_spec().is_none());
    let rolled = session.next_rollback().unwrap();
    assert_eq!(rolled.worker, 11);
    assert!(session.next_rollback().is_none());

    match session.finish() {
        Err(OrchestrationError::SpawnFailure { output, message }) => {
            assert_eq!(output, "DP-2");
            assert_eq!(message, "spawn exploded");
        }
        other => panic!("expected SpawnFailure, got {other:?}"),
    }
}

#[test]
fn a_failure_on_the_first_spawn_needs_no_rollback() {
    let mut session = SpawnSession::new(swaybg(), two_spec_plan());
    session.record_spawn_err("no such program".to_string());
    assert!(session.pending_spec().is_none());
    assert!(session.next_rollback().is_none());
    match session.finish() {
        Err(OrchestrationError::SpawnFailure { output, .. }) => {
            assert_eq!(output, "DP-1");
        }
        other => panic!("expected SpawnFailure, got {other:?}"),
    }
}

#[test]
fn an_empty_plan_finishes_with_an_empty_pool() {
    let session = SpawnSession::new(swaybg(), Vec::new());
    let pool = session.finish().unwrap();
    assert!(pool.is_empty());
}
