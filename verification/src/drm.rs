//! Display-output decisions: which device candidate to probe next and when to
//! give up, which connector, mode and CRTC to drive, and which rendering
//! configuration to pick. The kernel and driver calls that act on these
//! decisions live outside this crate; they hand in plain descriptions of what
//! they found and carry out what is chosen here.

use vstd::prelude::*;

verus! {

/// Total wall-clock budget for finding a usable display device at startup.
pub const DEVICE_DISCOVERY_TIMEOUT_MS: u64 = 5000;

/// Delay between two probe rounds while no device candidate is present.
pub const DEVICE_PROBE_INTERVAL_MS: u64 = 50;

/// What the device-discovery loop does next.
#[derive(Clone, Copy, PartialEq, Eq, Structural, Debug)]
pub enum DiscoveryDecision {
    /// Try to open the next candidate device node.
    TryCandidate,
    /// No candidate is left in this round: re-enumerate after the probe delay.
    RetryAfterDelay,
    /// No candidate is left and the timeout has passed: fatal, the process
    /// cannot proceed without a display device.
    GiveUp,
}

/// The discovery decision as a function of how many candidates remain in the
/// current round and of the elapsed wall-clock time.
pub open spec fn spec_discovery_decision(
    next_candidate: int,
    candidate_count: int,
    elapsed_ms: u64,
) -> DiscoveryDecision {
    if next_candidate < candidate_count {
        DiscoveryDecision::TryCandidate
    } else if elapsed_ms < DEVICE_DISCOVERY_TIMEOUT_MS {
        DiscoveryDecision::RetryAfterDelay
    } else {
        DiscoveryDecision::GiveUp
    }
}

/// Decide one step of device discovery. `next_candidate` indexes the first
/// candidate of the current round not yet tried.
pub fn discovery_step(next_candidate: usize, candidate_count: usize, elapsed_ms: u64) -> (r:
    DiscoveryDecision)
    ensures
        r == spec_discovery_decision(next_candidate as int, candidate_count as int, elapsed_ms),
{
    if next_candidate < candidate_count {
        DiscoveryDecision::TryCandidate
    } else if elapsed_ms < DEVICE_DISCOVERY_TIMEOUT_MS {
        DiscoveryDecision::RetryAfterDelay
    } else {
        DiscoveryDecision::GiveUp
    }
}

/// Law: when no candidate device ever appears, discovery fails no earlier
/// than the timeout and strictly earlier than one probe interval past it.
/// `elapsed_prev_ms` is the clock at the last round that decided to retry,
/// `elapsed_ms` the clock at the next decision; a candidate-free round
/// advances the clock by at most the probe delay.
pub proof fn lemma_discovery_timeout_bounds(elapsed_prev_ms: u64, elapsed_ms: u64)
    requires
        spec_discovery_decision(0, 0, elapsed_prev_ms) == DiscoveryDecision::RetryAfterDelay,
        elapsed_ms <= elapsed_prev_ms + DEVICE_PROBE_INTERVAL_MS,
        spec_discovery_decision(0, 0, elapsed_ms) == DiscoveryDecision::GiveUp,
    ensures
        DEVICE_DISCOVERY_TIMEOUT_MS <= elapsed_ms,
        elapsed_ms < DEVICE_DISCOVERY_TIMEOUT_MS + DEVICE_PROBE_INTERVAL_MS,
{
}

/// Color depth of the framebuffer registered for scanout each frame.
pub const FRAMEBUFFER_DEPTH: u32 = 24;

/// Bits per pixel of the framebuffer registered for scanout each frame.
pub const FRAMEBUFFER_BPP: u32 = 32;

/// One display mode: the pixel dimensions the surface is sized to.
#[derive(Clone, Copy, PartialEq, Eq, Structural, Debug)]
pub struct ModeInfo {
    pub width: u16,
    pub height: u16,
}

/// One connector as the device reports it: its id, whether a display is
/// connected, and its advertised modes, preferred first.
#[derive(Debug)]
pub struct ConnectorInfo {
    pub id: u32,
    pub connected: bool,
    pub modes: Vec<ModeInfo>,
}

/// One CRTC as the device reports it.
#[derive(Clone, Copy, PartialEq, Eq, Structural, Debug)]
pub struct CrtcInfo {
    pub id: u32,
}

/// The output chosen at construction: connector, CRTC and mode, fixed for
/// the context's lifetime.
#[derive(Clone, Copy, PartialEq, Eq, Structural, Debug)]
pub struct OutputSelection {
    pub connector_id: u32,
    pub crtc_id: u32,
    pub mode: ModeInfo,
}

/// Why constructing a graphics context failed; each is fatal at startup.
#[derive(Clone, Copy, PartialEq, Eq, Structural, Debug)]
pub enum GraphicsError {
    /// No connector reports a connected display.
    NoConnectedConnector,
    /// The connected connector advertises no mode.
    NoMode,
    /// The device exposes no CRTC.
    NoCrtc,
    /// No rendering-surface configuration is available.
    NoConfig,
}

/// `i` indexes the first connector reporting a connected display.
pub open spec fn spec_is_first_connected(cs: Seq<ConnectorInfo>, i: int) -> bool {
    0 <= i < cs.len() && cs[i].connected && forall|j: int| 0 <= j < i ==> !(#[trigger] cs[j]).connected
}

/// Choose the output to drive: the first connector reporting a connected
/// display, its first (preferred) mode, and the first CRTC. Fails exactly
/// when no connector is connected, then when the chosen connector has no
/// mode, then when there is no CRTC.
pub fn select_output(connectors: &Vec<ConnectorInfo>, crtcs: &Vec<CrtcInfo>) -> (r: Result<
    OutputSelection,
    GraphicsError,
>)
    ensures
        match r {
            Ok(sel) => exists|ci: int|
                #[trigger] spec_is_first_connected(connectors@, ci) && connectors@[ci].modes@.len()
                    > 0 && crtcs@.len() > 0 && sel == (OutputSelection {
                    connector_id: connectors@[ci].id,
                    crtc_id: crtcs@[0].id,
                    mode: connectors@[ci].modes@[0],
                }),
            Err(GraphicsError::NoConnectedConnector) => forall|i: int|
                0 <= i < connectors@.len() ==> !(#[trigger] connectors@[i]).connected,
            Err(GraphicsError::NoMode) => exists|ci: int|
                #[trigger] spec_is_first_connected(connectors@, ci) && connectors@[ci].modes@.len()
                    == 0,
            Err(GraphicsError::NoCrtc) => crtcs@.len() == 0 && exists|ci: int|
                #[trigger] spec_is_first_connected(connectors@, ci) && connectors@[ci].modes@.len()
                    > 0,
            Err(GraphicsError::NoConfig) => false,
        },
{
    let mut i: usize = 0;
    while i < connectors.len()
        invariant
            i <= connectors.len(),
            forall|j: int| 0 <= j < i ==> !(#[trigger] connectors@[j]).connected,
        decreases connectors.len() - i,
    {
        if connectors[i].connected {
            proof {
                assert(spec_is_first_connected(connectors@, i as int));
            }
            let con = &connectors[i];
            if con.modes.len() == 0 {
                return Err(GraphicsError::NoMode);
            }
            if crtcs.len() == 0 {
                return Err(GraphicsError::NoCrtc);
            }
            return Ok(
                OutputSelection {
                    connector_id: con.id,
                    crtc_id: crtcs[0].id,
                    mode: con.modes[0],
                },
            );
        }
        i += 1;
    }
    Err(GraphicsError::NoConnectedConnector)
}

/// Pick the rendering configuration with the highest multisample count; of
/// several maxima the last wins. Fails exactly when no configuration exists.
pub fn select_config(sample_counts: &Vec<u32>) -> (r: Result<usize, GraphicsError>)
    ensures
        match r {
            Ok(i) => i < sample_counts@.len() && (forall|j: int|
                0 <= j < sample_counts@.len() ==> #[trigger] sample_counts@[j]
                    <= sample_counts@[i as int]) && (forall|j: int|
                i < j < sample_counts@.len() ==> #[trigger] sample_counts@[j]
                    < sample_counts@[i as int]),
            Err(e) => e == GraphicsError::NoConfig && sample_counts@.len() == 0,
        },
{
    if sample_counts.len() == 0 {
        return Err(GraphicsError::NoConfig);
    }
    let mut best: usize = 0;
    let mut j: usize = 1;
    while j < sample_counts.len()
        invariant
            best < j <= sample_counts.len(),
            sample_counts@.len() > 0,
            forall|k: int| 0 <= k < j ==> #[trigger] sample_counts@[k] <= sample_counts@[best as int],
            forall|k: int|
                best < k < j ==> #[trigger] sample_counts@[k] < sample_counts@[best as int],
        decreases sample_counts.len() - j,
    {
        if sample_counts[j] >= sample_counts[best] {
            best = j;
        }
        j += 1;
    }
    Ok(best)
}

/// The pixel size of the active mode, widened for the rendering layer;
/// stable for the context's lifetime.
pub fn mode_size(mode: &ModeInfo) -> (r: (u32, u32))
    ensures
        r.0 == mode.width as u32,
        r.1 == mode.height as u32,
{
    (mode.width as u32, mode.height as u32)
}

} // verus!
