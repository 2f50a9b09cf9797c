use tibs::drm::{
    discovery_step, mode_size, select_config, select_output, ConnectorInfo, CrtcInfo,
    DiscoveryDecision, GraphicsError, ModeInfo, DEVICE_DISCOVERY_TIMEOUT_MS,
};
use tibs::tty::{active_tty_or_fallback, ACTIVE_TTY_FALLBACK};

fn connector(id: u32, connected: bool, modes: Vec<ModeInfo>) -> ConnectorInfo {
    ConnectorInfo { id, connected, modes }
}

#[test]
fn discovery_tries_candidates_before_waiting() {
    assert_eq!(discovery_step(0, 2, 0), DiscoveryDecision::TryCandidate);
    assert_eq!(discovery_step(1, 2, 4999), DiscoveryDecision::TryCandidate);
}

#[test]
fn discovery_with_no_candidates_retries_until_the_timeout() {
    assert_eq!(discovery_step(0, 0, 0), DiscoveryDecision::RetryAfterDelay);
    assert_eq!(
        discovery_step(0, 0, DEVICE_DISCOVERY_TIMEOUT_MS - 1),
        DiscoveryDecision::RetryAfterDelay
    );
    assert_eq!(
        discovery_step(0, 0, DEVICE_DISCOVERY_TIMEOUT_MS),
        DiscoveryDecision::GiveUp
    );
    assert_eq!(
        discovery_step(2, 2, DEVICE_DISCOVERY_TIMEOUT_MS + 1),
        DiscoveryDecision::GiveUp
    );
}

#[test]
fn first_connected_connector_and_its_preferred_mode_win() {
    let connectors = vec![
        connector(10, false, vec![ModeInfo { width: 640, height: 480 }]),
        connector(
            11,
            true,
            vec![
                ModeInfo { width: 1920, height: 1080 },
                ModeInfo { width: 1280, height: 720 },
            ],
        ),
        connector(12, true, vec![ModeInfo { width: 800, height: 600 }]),
    ];
    let crtcs = vec![CrtcInfo { id: 40 }, CrtcInfo { id: 41 }];
    let sel = select_output(&connectors, &crtcs).expect("an output is connected");
    assert_eq!(sel.connector_id, 11);
    assert_eq!(sel.crtc_id, 40);
    assert_eq!(sel.mode, ModeInfo { width: 1920, height: 1080 });
    assert_eq!(mode_size(&sel.mode), (1920, 1080));
}

#[test]
fn no_connected_connector_is_fatal() {
    let connectors = vec![
        connector(10, false, vec![ModeInfo { width: 640, height: 480 }]),
        connector(11, false, vec![]),
    ];
    let crtcs = vec![CrtcInfo { id: 40 }];
    assert_eq!(
        select_output(&connectors, &crtcs),
        Err(GraphicsError::NoConnectedConnector)
    );
    assert_eq!(select_output(&vec![], &crtcs), Err(GraphicsError::NoConnectedConnector));
}

#[test]
fn connected_connector_without_modes_is_fatal() {
    let connectors = vec![connector(10, true, vec![])];
    let crtcs = vec![CrtcInfo { id: 40 }];
    assert_eq!(select_output(&connectors, &crtcs), Err(GraphicsError::NoMode));
}

#[test]
fn missing_crtc_is_fatal() {
    let connectors = vec![connector(10, true, vec![ModeInfo { width: 640, height: 480 }])];
    assert_eq!(select_output(&connectors, &vec![]), Err(GraphicsError::NoCrtc));
}

#[test]
fn config_with_most_samples_wins_and_later_ties_supersede() {
    assert_eq!(select_config(&vec![0, 4, 2]), Ok(1));
    // Of equal sample counts the last candidate wins.
    assert_eq!(select_config(&vec![4, 8, 8]), Ok(2));
    assert_eq!(select_config(&vec![3]), Ok(0));
    assert_eq!(select_config(&vec![]), Err(GraphicsError::NoConfig));
}

#[test]
fn active_tty_query_falls_back_conservatively() {
    assert_eq!(active_tty_or_fallback(Some(5)), 5);
    assert_eq!(active_tty_or_fallback(None), ACTIVE_TTY_FALLBACK);
    assert_eq!(ACTIVE_TTY_FALLBACK, 2);
}
