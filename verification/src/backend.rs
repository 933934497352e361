//! The backend registry.
//!
//! The set of wallpaper-rendering programs the orchestrator knows is fixed at
//! build time. Each backend declares a name (the executable it needs) and a
//! capability set; whether it is installed is decided by resolving that
//! executable on the search path. Lookups and the installed-first fallback
//! are pure functions over the registry snapshot.

use vstd::prelude::*;
use vstd::string::StringExecFns;

use crate::mime::MediaKind;
use crate::output::OutputInfo;

verus! {

/// Image container formats a backend may care about.
#[derive(Debug, Clone, Copy, PartialEq, Eq, Structural)]
pub enum ImageType {
    APNG,
    PNG,
    JPEG,
    JPEGXL,
    GIF,
    SVG,
    WEBP,
}

/// What a backend can render or do.
#[derive(Debug, Clone, Copy, PartialEq, Eq, Structural)]
pub enum BackendCapability {
    Static,
    Animated,
    Video,
    MultiOutput,
    HotReload,
}

/// How the wallpaper is laid onto the output.
#[derive(Debug, Clone, Copy, PartialEq, Eq, Structural)]
pub enum WallpaperMode {
    Stretch,
    Fit,
    Fill,
    Center,
    Tile,
    SolidColor,
}

/// The swaybg program.
#[derive(Debug, Clone, Copy, PartialEq, Eq, Structural)]
pub struct SwaybgBackend;

/// The mpvpaper program.
#[derive(Debug, Clone, Copy, PartialEq, Eq, Structural)]
pub struct MpvPaperBackend;

/// The awww program.
#[derive(Debug, Clone, Copy, PartialEq, Eq, Structural)]
pub struct AwwwBackend;

/// The closed set of backends known at build time.
#[derive(Debug, Clone, Copy, PartialEq, Eq, Structural)]
pub enum Backend {
    Swaybg(SwaybgBackend),
    MpvPaper(MpvPaperBackend),
    Awww(AwwwBackend),
}

/// The capability a media kind asks of a backend; unsupported media (and the
/// wildcard kind) ask for none.
pub open spec fn spec_capability_for_kind(kind: MediaKind) -> Option<BackendCapability> {
    match kind {
        MediaKind::StaticImage => Some(BackendCapability::Static),
        MediaKind::AnimatedImage => Some(BackendCapability::Animated),
        MediaKind::Video => Some(BackendCapability::Video),
        MediaKind::Unsupported => None,
        MediaKind::Any => None,
    }
}

/// Map a media kind to the backend capability that can render it.
pub fn capability_for_kind(kind: MediaKind) -> (r: Option<BackendCapability>)
    ensures
        r == spec_capability_for_kind(kind),
{
    match kind {
        MediaKind::StaticImage => Some(BackendCapability::Static),
        MediaKind::AnimatedImage => Some(BackendCapability::Animated),
        MediaKind::Video => Some(BackendCapability::Video),
        MediaKind::Unsupported => None,
        MediaKind::Any => None,
    }
}

/// Relies on which::which: whether the named program resolves on the current
/// search path. The answer depends on the machine, so nothing is promised of
/// it.
#[verifier::external_body]
fn executable_resolves(name: &str) -> bool {
    which::which(name).is_ok()
}

/// The name of a backend, which is also the executable it needs.
pub open spec fn spec_backend_name(b: Backend) -> Seq<char> {
    match b {
        Backend::Swaybg(_) => "swaybg"@,
        Backend::MpvPaper(_) => "mpvpaper"@,
        Backend::Awww(_) => "awww"@,
    }
}

/// The capability set a backend declares; fixed, never mutated.
pub open spec fn spec_backend_capabilities(b: Backend) -> Seq<BackendCapability> {
    match b {
        Backend::Swaybg(_) => seq![BackendCapability::Static],
        Backend::MpvPaper(_) => seq![
            BackendCapability::Static,
            BackendCapability::Animated,
            BackendCapability::Video,
            BackendCapability::MultiOutput,
        ],
        Backend::Awww(_) => seq![BackendCapability::Static, BackendCapability::Animated],
    }
}

impl Backend {
    /// The backend's name, which is also the executable it needs.
    pub fn name(&self) -> (r: String)
        ensures
            r@ == spec_backend_name(*self),
    {
        match self {
            Backend::Swaybg(_) => String::from_str("swaybg"),
            Backend::MpvPaper(_) => String::from_str("mpvpaper"),
            Backend::Awww(_) => String::from_str("awww"),
        }
    }

    /// The capabilities the backend declares.
    pub fn capabilities(&self) -> (r: Vec<BackendCapability>)
        ensures
            r@ == spec_backend_capabilities(*self),
    {
        let mut r: Vec<BackendCapability> = Vec::new();
        match self {
            Backend::Swaybg(_) => {
                r.push(BackendCapability::Static);
            },
            Backend::MpvPaper(_) => {
                r.push(BackendCapability::Static);
                r.push(BackendCapability::Animated);
                r.push(BackendCapability::Video);
                r.push(BackendCapability::MultiOutput);
            },
            Backend::Awww(_) => {
                r.push(BackendCapability::Static);
                r.push(BackendCapability::Animated);
            },
        }
        proof {
            assert(r@ =~= spec_backend_capabilities(*self));
        }
        r
    }

    /// Whether the backend declares the given capability.
    pub fn has_capability(&self, cap: BackendCapability) -> (r: bool)
        ensures
            r == spec_backend_capabilities(*self).contains(cap),
    {
        let caps = self.capabilities();
        let mut i: usize = 0;
        while i < caps.len()
            invariant
                i <= caps@.len(),
                caps@ == spec_backend_capabilities(*self),
                forall|j: int| 0 <= j < i ==> caps@[j] != cap,
            decreases caps@.len() - i,
        {
            if caps[i] == cap {
                return true;
            }
            i += 1;
        }
        false
    }

    /// Whether the backend's program is installed. Only swaybg is probed; the
    /// other backends are not wired to a start procedure yet and never count
    /// as installed.
    pub fn is_installed(&self) -> (r: bool)
        ensures
            !(*self is Swaybg) ==> r == false,
    {
        match self {
            Backend::Swaybg(_) => executable_resolves("swaybg"),
            _ => false,
        }
    }

    /// The backends known at build time, in registration order; the
    /// deterministic tie-break order for every fallback.
    pub fn supported_backends() -> (r: Vec<Backend>)
        ensures
            r@ == spec_supported_backends(),
    {
        let mut r: Vec<Backend> = Vec::new();
        r.push(Backend::Swaybg(SwaybgBackend));
        r.push(Backend::MpvPaper(MpvPaperBackend));
        r.push(Backend::Awww(AwwwBackend));
        proof {
            assert(r@ =~= spec_supported_backends());
        }
        r
    }
}

/// The registry: every backend known at build time, in registration order.
pub open spec fn spec_supported_backends() -> Seq<Backend> {
    seq![
        Backend::Swaybg(SwaybgBackend),
        Backend::MpvPaper(MpvPaperBackend),
        Backend::Awww(AwwwBackend),
    ]
}

/// The names of every known backend, for diagnostics.
pub fn supported_backend_names() -> (r: Vec<String>)
    ensures
        r.deep_view() == seq!["swaybg"@, "mpvpaper"@, "awww"@],
{
    let mut r: Vec<String> = Vec::new();
    r.push(String::from_str("swaybg"));
    r.push(String::from_str("mpvpaper"));
    r.push(String::from_str("awww"));
    proof {
        assert(r.deep_view() =~= seq!["swaybg"@, "mpvpaper"@, "awww"@]);
    }
    r
}

/// The first `n` backends kept where the matching flag is set, in order.
pub open spec fn spec_select_installed(s: Seq<Backend>, present: Seq<bool>, n: int) -> Seq<Backend>
    decreases n,
{
    if n <= 0 || n > s.len() || n > present.len() {
        Seq::empty()
    } else if present[n - 1] {
        spec_select_installed(s, present, n - 1) + seq![s[n - 1]]
    } else {
        spec_select_installed(s, present, n - 1)
    }
}

/// Keep the backends whose presence flag is set, preserving order.
pub fn select_installed(backends: &Vec<Backend>, present: &Vec<bool>) -> (r: Vec<Backend>)
    requires
        backends@.len() == present@.len(),
    ensures
        r@ == spec_select_installed(backends@, present@, backends@.len() as int),
{
    let mut r: Vec<Backend> = Vec::new();
    let mut i: usize = 0;
    while i < backends.len()
        invariant
            i <= backends@.len(),
            backends@.len() == present@.len(),
            r@ == spec_select_installed(backends@, present@, i as int),
        decreases backends@.len() - i,
    {
        if present[i] {
            r.push(backends[i]);
        }
        proof {
            assert(r@ =~= spec_select_installed(backends@, present@, i + 1));
        }
        i += 1;
    }
    r
}

/// The backends of the registry that are installed on this machine, in
/// registration order. Only swaybg can be probed, so the result is at most
/// that one entry; what the probe answers depends on the machine.
pub fn available_backends() -> (r: Vec<Backend>)
    ensures
        r@.len() <= 1,
        r@.len() == 1 ==> r@[0] == Backend::Swaybg(SwaybgBackend),
{
    let supported = Backend::supported_backends();
    let mut present: Vec<bool> = Vec::new();
    let mut i: usize = 0;
    while i < supported.len()
        invariant
            i <= supported@.len(),
            supported@ == spec_supported_backends(),
            present@.len() == i,
            forall|j: int| 0 <= j < i ==> present@[j] ==> supported@[j] is Swaybg,
        decreases supported@.len() - i,
    {
        let here = supported[i].is_installed();
        present.push(here);
        i += 1;
    }
    let r = select_installed(&supported, &present);
    proof {
        let sup = supported@;
        let pre = present@;
        assert(!pre[1] && !pre[2]);
        assert(spec_select_installed(sup, pre, 3) == spec_select_installed(sup, pre, 2));
        assert(spec_select_installed(sup, pre, 2) == spec_select_installed(sup, pre, 1));
        assert(spec_select_installed(sup, pre, 0) == Seq::<Backend>::empty());
        if pre[0] {
            assert(spec_select_installed(sup, pre, 1) =~= seq![sup[0]]);
        } else {
            assert(spec_select_installed(sup, pre, 1) =~= Seq::<Backend>::empty());
        }
    }
    r
}

/// The first backend in `s` (from index `i` on) whose name spells `name`.
pub open spec fn spec_backend_by_name(s: Seq<Backend>, name: Seq<char>, i: int) -> Option<Backend>
    decreases s.len() - i,
{
    if i < 0 || i >= s.len() {
        None
    } else if spec_backend_name(s[i]) == name {
        Some(s[i])
    } else {
        spec_backend_by_name(s, name, i + 1)
    }
}

proof fn lemma_backend_by_name_step(s: Seq<Backend>, name: Seq<char>, i: int)
    requires
        0 <= i < s.len(),
        spec_backend_name(s[i]) != name,
    ensures
        spec_backend_by_name(s, name, i) == spec_backend_by_name(s, name, i + 1),
{
}

/// The first backend among `installed` whose name spells `name`.
pub fn find_backend_by_name(installed: &Vec<Backend>, name: &String) -> (r: Option<Backend>)
    ensures
        r == spec_backend_by_name(installed@, name@, 0),
{
    let mut i: usize = 0;
    while i < installed.len()
        invariant
            i <= installed@.len(),
            spec_backend_by_name(installed@, name@, 0) == spec_backend_by_name(
                installed@,
                name@,
                i as int,
            ),
        decreases installed@.len() - i,
    {
        let b = installed[i];
        if b.name() == *name {
            proof {
                assert(spec_backend_by_name(installed@, name@, i as int) == Some(b));
            }
            return Some(b);
        }
        proof {
            lemma_backend_by_name_step(installed@, name@, i as int);
        }
        i += 1;
    }
    None
}

/// The backend an orchestration run uses: the explicitly requested one when
/// it is installed, else the first installed one; none only when nothing is
/// installed. Failing to match a requested name is not fatal.
pub open spec fn spec_select_backend(requested: Option<Seq<char>>, installed: Seq<Backend>) -> Option<
    Backend,
> {
    if installed.len() == 0 {
        None
    } else {
        match requested {
            Some(name) => match spec_backend_by_name(installed, name, 0) {
                Some(b) => Some(b),
                None => Some(installed[0]),
            },
            None => Some(installed[0]),
        }
    }
}

/// Pick the backend to use from the installed set: the requested one when
/// installed, else the first installed.
pub fn select_backend(requested: Option<&String>, installed: &Vec<Backend>) -> (r: Option<Backend>)
    ensures
        ({
            let req = match requested {
                Some(n) => Some(n@),
                None => None,
            };
            r == spec_select_backend(req, installed@)
        }),
{
    if installed.len() == 0 {
        return None;
    }
    match requested {
        Some(name) => {
            match find_backend_by_name(installed, name) {
                Some(b) => Some(b),
                None => Some(installed[0]),
            }
        },
        None => Some(installed[0]),
    }
}

/// Look a backend up by name among the installed ones. A requested backend
/// that is not installed is "not found", never an error.
pub fn get_backend_by_name(name: &String) -> (r: Option<Backend>)
    ensures
        r is Some ==> r->0 == Backend::Swaybg(SwaybgBackend) && name@ == "swaybg"@,
{
    let installed = available_backends();
    let r = find_backend_by_name(&installed, name);
    proof {
        if r is Some {
            assert(installed@.len() != 0) by {
                if installed@.len() == 0 {
                    assert(spec_backend_by_name(installed@, name@, 0) is None);
                }
            }
            assert(installed@[0] == Backend::Swaybg(SwaybgBackend));
            assert(spec_backend_by_name(installed@, name@, 1) is None);
            assert(spec_backend_name(installed@[0]) == name@);
        }
    }
    r
}

/// The first installed backend, in registration order; none when nothing is
/// installed.
pub fn get_first_backend() -> (r: Option<Backend>)
    ensures
        r is Some ==> r->0 == Backend::Swaybg(SwaybgBackend),
{
    let installed = available_backends();
    if installed.len() == 0 {
        None
    } else {
        Some(installed[0])
    }
}

/// The fully resolved instruction to start one worker: one media file, a
/// display mode, one target output, extra arguments for the program.
#[derive(Debug)]
pub struct BackendSpawnSpec {
    pub media: String,
    pub mode: WallpaperMode,
    pub output: OutputInfo,
    pub extra_args: Vec<String>,
}

impl SwaybgBackend {
    /// The argument list a swaybg worker is started with: the target output
    /// and the image to draw.
    pub fn spawn_args(spec: &BackendSpawnSpec) -> (r: Vec<String>)
        ensures
            r.deep_view() == seq!["-o"@, spec.output.name@, "-i"@, spec.media@],
    {
        let mut r: Vec<String> = Vec::new();
        r.push(String::from_str("-o"));
        r.push(spec.output.name.clone());
        r.push(String::from_str("-i"));
        r.push(spec.media.clone());
        proof {
            assert(r.deep_view() =~= seq!["-o"@, spec.output.name@, "-i"@, spec.media@]);
        }
        r
    }
}

/// A spawn instruction for a backend that drives several outputs from one
/// coordinated invocation.
#[derive(Debug)]
pub struct MultiMonitorBackendSpawnSpec {
    pub media: String,
    pub mode: WallpaperMode,
    pub outputs: Vec<String>,
    pub extra_args: Vec<String>,
}

/// A live worker: the opaque identifier of the spawned process (assigned by
/// the runtime that owns it) and the backend that produced it, needed to stop
/// it correctly. Handles move; they are never duplicated.
#[derive(Debug, PartialEq, Eq, Structural)]
pub struct WorkerHandle {
    pub backend: Backend,
    pub worker: u64,
}

} // verus!
