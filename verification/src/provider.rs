//! One-shot compute-provider preflight.
//!
//! The candidate is chosen once at startup from the build's GPU support
//! and the devices visible on the machine; the choice is a pure function
//! of those two sets and the engine settings.
use crate::config::{EngineConfig, Provider};
use crate::text::{concat2, concat3, has_prefix, join_strings, joined, owned, str_eq};
use vstd::prelude::*;

verus! {

/// Device that `auto` or a provider pin asks Whisper.cpp to use.
#[derive(Debug, Clone, Copy, PartialEq, Eq, Structural)]
pub enum ProviderCandidate {
    Cpu,
    Vulkan,
    Cuda,
    Hip,
    Metal,
}

impl ProviderCandidate {
    pub open spec fn name(self) -> Seq<char> {
        match self {
            ProviderCandidate::Cpu => "cpu"@,
            ProviderCandidate::Vulkan => "vulkan"@,
            ProviderCandidate::Cuda => "cuda"@,
            ProviderCandidate::Hip => "hip"@,
            ProviderCandidate::Metal => "metal"@,
        }
    }

    /// Spelling used in logs and diagnostics.
    pub fn as_str(self) -> (r: &'static str)
        ensures
            r@ == self.name(),
    {
        match self {
            ProviderCandidate::Cpu => "cpu",
            ProviderCandidate::Vulkan => "vulkan",
            ProviderCandidate::Cuda => "cuda",
            ProviderCandidate::Hip => "hip",
            ProviderCandidate::Metal => "metal",
        }
    }

    /// Whether recognition should hand work to a GPU backend.
    pub fn is_gpu(self) -> (r: bool)
        ensures
            r == (self != ProviderCandidate::Cpu),
    {
        !(self == ProviderCandidate::Cpu)
    }
}

/// A set of GPU providers: the ones compiled into a build, or the ones
/// with a visible device.
#[derive(Debug, Clone, Copy, PartialEq, Eq, Structural)]
pub struct GpuSet {
    pub vulkan: bool,
    pub cuda: bool,
    pub hip: bool,
    pub metal: bool,
}

impl GpuSet {
    /// Whether `p` is in the set (`auto` and `cpu` never are).
    pub open spec fn has(self, p: Provider) -> bool {
        match p {
            Provider::Vulkan => self.vulkan,
            Provider::Cuda => self.cuda,
            Provider::Hip => self.hip,
            Provider::Metal => self.metal,
            Provider::Auto | Provider::Cpu => false,
        }
    }

    pub fn contains(self, p: Provider) -> (r: bool)
        ensures
            r == self.has(p),
    {
        match p {
            Provider::Vulkan => self.vulkan,
            Provider::Cuda => self.cuda,
            Provider::Hip => self.hip,
            Provider::Metal => self.metal,
            Provider::Auto | Provider::Cpu => false,
        }
    }

    pub fn empty() -> (r: GpuSet)
        ensures
            r == GpuSet::empty_spec(),
    {
        GpuSet { vulkan: false, cuda: false, hip: false, metal: false }
    }
}

/// GPU backends compiled into this build: none, since this build carries
/// no GPU feature.
pub fn compiled_support() -> (r: GpuSet)
    ensures
        r == GpuSet::empty_spec(),
{
    GpuSet::empty()
}

/// The order in which GPU backends are probed and listed.
pub open spec fn gpu_order() -> Seq<Provider> {
    seq![Provider::Cuda, Provider::Hip, Provider::Vulkan, Provider::Metal]
}

/// The compiled GPU providers, in probe order.
pub open spec fn compiled_list(compiled: GpuSet) -> Seq<Provider> {
    gpu_order().filter(|p: Provider| compiled.has(p))
}

/// Cargo feature that enables a GPU provider.
pub open spec fn feature_name(p: Provider) -> Seq<char> {
    match p {
        Provider::Vulkan => "gpu-vulkan"@,
        Provider::Cuda => "gpu-cuda"@,
        Provider::Hip => "gpu-hip"@,
        Provider::Metal => "gpu-metal"@,
        _ => "none"@,
    }
}

pub open spec fn candidate_of(p: Provider) -> ProviderCandidate {
    match p {
        Provider::Vulkan => ProviderCandidate::Vulkan,
        Provider::Cuda => ProviderCandidate::Cuda,
        Provider::Hip => ProviderCandidate::Hip,
        Provider::Metal => ProviderCandidate::Metal,
        _ => ProviderCandidate::Cpu,
    }
}

/// The first provider in probe order that is compiled in and has a
/// device, or the CPU.
pub open spec fn probe_auto_spec(compiled: GpuSet, devices: GpuSet) -> ProviderCandidate {
    if compiled.cuda && devices.cuda {
        ProviderCandidate::Cuda
    } else if compiled.hip && devices.hip {
        ProviderCandidate::Hip
    } else if compiled.vulkan && devices.vulkan {
        ProviderCandidate::Vulkan
    } else if compiled.metal && devices.metal {
        ProviderCandidate::Metal
    } else {
        ProviderCandidate::Cpu
    }
}

/// A pinned GPU provider must be compiled in and have a visible device.
pub open spec fn pin_spec(p: Provider, compiled: GpuSet, devices: GpuSet) -> Result<
    ProviderCandidate,
    Seq<char>,
> {
    if !compiled.has(p) {
        Err(
            "provider `"@ + p.name() + "` is not compiled into this build; rebuild with `--features "@
                + feature_name(p) + "`"@,
        )
    } else if !devices.has(p) {
        Err("provider `"@ + p.name() + "` was requested but no "@ + p.name() + " device was found"@)
    } else {
        Ok(candidate_of(p))
    }
}

pub open spec fn multiple_gpu_message(compiled: GpuSet) -> Seq<char> {
    "this build includes multiple Whisper GPU providers ("@ + joined(
        compiled_list(compiled).map_values(|p: Provider| p.name()),
        ", "@,
    )
        + "), but whisper.cpp does not let this app pin a provider; rebuild with one GPU feature"@
}

/// The provider decision for `e`, given the compiled GPU backends and the
/// visible devices.
pub open spec fn resolve_spec(e: EngineConfig, compiled: GpuSet, devices: GpuSet) -> Result<
    ProviderCandidate,
    Seq<char>,
> {
    if e.backend@ != "whisper"@ {
        if e.provider.gpu() {
            Err(
                "provider `"@ + e.provider.name() + "` needs the whisper backend; backend `"@
                    + e.backend@ + "` runs on CPU only"@,
            )
        } else {
            Ok(ProviderCandidate::Cpu)
        }
    } else if e.provider == Provider::Cpu {
        Ok(ProviderCandidate::Cpu)
    } else if compiled_list(compiled).len() > 1 {
        Err(multiple_gpu_message(compiled))
    } else if e.provider == Provider::Auto {
        Ok(probe_auto_spec(compiled, devices))
    } else {
        pin_spec(e.provider, compiled, devices)
    }
}

pub open spec fn result_view(r: Result<ProviderCandidate, String>) -> Result<
    ProviderCandidate,
    Seq<char>,
> {
    match r {
        Ok(c) => Ok(c),
        Err(m) => Err(m@),
    }
}

/// The compiled GPU providers, in probe order.
pub fn compiled_gpu_providers(compiled: GpuSet) -> (r: Vec<Provider>)
    ensures
        r@ == compiled_list(compiled),
{
    let mut r: Vec<Provider> = Vec::new();
    if compiled.cuda {
        r.push(Provider::Cuda);
    }
    if compiled.hip {
        r.push(Provider::Hip);
    }
    if compiled.vulkan {
        r.push(Provider::Vulkan);
    }
    if compiled.metal {
        r.push(Provider::Metal);
    }
    proof {
        reveal_with_fuel(Seq::<Provider>::filter, 5);
        assert(r@ =~= compiled_list(compiled));
    }
    r
}

/// Probe the compiled-in GPU backends in order and return the first with
/// a visible device.
pub fn probe_auto(compiled: GpuSet, devices: GpuSet) -> (r: ProviderCandidate)
    ensures
        r == probe_auto_spec(compiled, devices),
{
    if compiled.cuda && devices.cuda {
        ProviderCandidate::Cuda
    } else if compiled.hip && devices.hip {
        ProviderCandidate::Hip
    } else if compiled.vulkan && devices.vulkan {
        ProviderCandidate::Vulkan
    } else if compiled.metal && devices.metal {
        ProviderCandidate::Metal
    } else {
        ProviderCandidate::Cpu
    }
}

fn feature_of(p: Provider) -> (r: &'static str)
    ensures
        r@ == feature_name(p),
{
    match p {
        Provider::Vulkan => "gpu-vulkan",
        Provider::Cuda => "gpu-cuda",
        Provider::Hip => "gpu-hip",
        Provider::Metal => "gpu-metal",
        _ => "none",
    }
}

/// A pinned provider must be compiled in and have a visible device.
pub fn pin(p: Provider, compiled: GpuSet, devices: GpuSet) -> (r: Result<ProviderCandidate, String>)
    requires
        p.gpu(),
    ensures
        result_view(r) == pin_spec(p, compiled, devices),
{
    if !compiled.contains(p) {
        let mut m = concat3(
            "provider `",
            p.as_str(),
            "` is not compiled into this build; rebuild with `--features ",
        );
        m.append(feature_of(p));
        m.append("`");
        return Err(m);
    }
    if !devices.contains(p) {
        let mut m = concat3("provider `", p.as_str(), "` was requested but no ");
        m.append(p.as_str());
        m.append(" device was found");
        return Err(m);
    }
    Ok(
        match p {
            Provider::Vulkan => ProviderCandidate::Vulkan,
            Provider::Cuda => ProviderCandidate::Cuda,
            Provider::Hip => ProviderCandidate::Hip,
            _ => ProviderCandidate::Metal,
        },
    )
}

/// Choose a provider candidate for `engine` from the compiled GPU
/// backends and the visible devices.
pub fn resolve_with(engine: &EngineConfig, compiled: GpuSet, devices: GpuSet) -> (r: Result<
    ProviderCandidate,
    String,
>)
    ensures
        result_view(r) == resolve_spec(*engine, compiled, devices),
{
    if !str_eq(engine.backend.as_str(), "whisper") {
        if engine.provider.is_gpu() {
            let mut m = concat3(
                "provider `",
                engine.provider.as_str(),
                "` needs the whisper backend; backend `",
            );
            m.append(engine.backend.as_str());
            m.append("` runs on CPU only");
            return Err(m);
        }
        return Ok(ProviderCandidate::Cpu);
    }
    if engine.provider == Provider::Cpu {
        return Ok(ProviderCandidate::Cpu);
    }
    let providers = compiled_gpu_providers(compiled);
    if providers.len() > 1 {
        let mut names: Vec<String> = Vec::new();
        let mut i: usize = 0;
        while i < providers.len()
            invariant
                i <= providers.len(),
                names.len() == i,
                forall|k: int| 0 <= k < i ==> #[trigger] names@[k]@ == providers@[k].name(),
            decreases providers.len() - i,
        {
            names.push(owned(providers[i].as_str()));
            i = i + 1;
        }
        assert(names.deep_view() =~= compiled_list(compiled).map_values(|p: Provider| p.name()));
        let mut m = concat2(
            "this build includes multiple Whisper GPU providers (",
            join_strings(&names, ", ").as_str(),
        );
        m.append(
            "), but whisper.cpp does not let this app pin a provider; rebuild with one GPU feature",
        );
        return Err(m);
    }
    if engine.provider == Provider::Auto {
        Ok(probe_auto(compiled, devices))
    } else {
        pin(engine.provider, compiled, devices)
    }
}

/// Choose a provider candidate for `engine` in this build.
///
/// Nothing GPU is compiled in, so no device is ever consulted.
pub fn resolve(engine: &EngineConfig) -> (r: Result<ProviderCandidate, String>)
    ensures
        result_view(r) == resolve_spec(*engine, GpuSet::empty_spec(), GpuSet::empty_spec()),
{
    let compiled = compiled_support();
    assert(compiled == GpuSet::empty_spec());
    resolve_with(engine, compiled, GpuSet::empty())
}

impl GpuSet {
    pub open spec fn empty_spec() -> GpuSet {
        GpuSet { vulkan: false, cuda: false, hip: false, metal: false }
    }
}

/// Without a compiled GPU backend the visible devices never matter.
pub proof fn lemma_resolve_ignores_devices_without_gpu(
    e: EngineConfig,
    compiled: GpuSet,
    devices: GpuSet,
)
    requires
        forall|p: Provider| !compiled.has(p),
    ensures
        resolve_spec(e, compiled, devices) == resolve_spec(e, compiled, GpuSet::empty_spec()),
{
    assert(!compiled.has(Provider::Cuda));
    assert(!compiled.has(Provider::Hip));
    assert(!compiled.has(Provider::Vulkan));
    assert(!compiled.has(Provider::Metal));
}

/// How the provider is chosen for Whisper in a build with one GPU backend
/// `p`: `auto` takes `p` when its device is visible and the CPU
/// otherwise; a pinned GPU provider succeeds only when it is `p` and its
/// device is visible; `cpu` is always the CPU. On the other backends a
/// pinned GPU provider is an error and anything else runs on the CPU.
pub proof fn law_provider_choice(e: EngineConfig, p: Provider, devices: GpuSet, compiled: GpuSet)
    requires
        p.gpu(),
        compiled.has(p),
        forall|q: Provider| q != p ==> !compiled.has(q),
    ensures
        e.backend@ == "whisper"@ && e.provider == Provider::Auto ==> resolve_spec(
            e,
            compiled,
            devices,
        ) == Ok::<ProviderCandidate, Seq<char>>(
            if devices.has(p) {
                candidate_of(p)
            } else {
                ProviderCandidate::Cpu
            },
        ),
        e.backend@ == "whisper"@ && e.provider.gpu() ==> (resolve_spec(
            e,
            compiled,
            devices,
        ) is Ok <==> e.provider == p && devices.has(p)),
        e.backend@ == "whisper"@ && e.provider.gpu() && resolve_spec(e, compiled, devices) is Ok
            ==> resolve_spec(e, compiled, devices) == Ok::<ProviderCandidate, Seq<char>>(
            candidate_of(p),
        ),
        e.provider == Provider::Cpu ==> resolve_spec(e, compiled, devices) == Ok::<
            ProviderCandidate,
            Seq<char>,
        >(ProviderCandidate::Cpu),
        e.backend@ != "whisper"@ ==> (resolve_spec(e, compiled, devices) is Ok <==> !e.provider.gpu()),
{
    reveal_with_fuel(Seq::<Provider>::filter, 5);
    assert(compiled_list(compiled) =~= seq![p]);
}

/// In this build nothing GPU is compiled in: `auto` and `cpu` run on the
/// CPU and a pinned GPU provider is refused, whatever devices are visible.
pub proof fn law_cpu_build(e: EngineConfig, devices: GpuSet)
    ensures
        !e.provider.gpu() ==> resolve_spec(e, GpuSet::empty_spec(), devices) == Ok::<
            ProviderCandidate,
            Seq<char>,
        >(ProviderCandidate::Cpu),
        e.provider.gpu() ==> resolve_spec(e, GpuSet::empty_spec(), devices) is Err,
{
    reveal_with_fuel(Seq::<Provider>::filter, 5);
    assert(compiled_list(GpuSet::empty_spec()) =~= Seq::<Provider>::empty());
}

/// `"none"` for no compiled GPU feature, else the features joined by `, `.
pub open spec fn features_text(compiled: GpuSet) -> Seq<char> {
    let names = compiled_list(compiled).map_values(|p: Provider| feature_name(p));
    if names.len() == 0 {
        "none"@
    } else {
        joined(names, ", "@)
    }
}

/// GPU features compiled into a build, for diagnostics (`"none"` = none).
pub fn features_of(compiled: GpuSet) -> (r: String)
    ensures
        r@ == features_text(compiled),
{
    let providers = compiled_gpu_providers(compiled);
    let mut names: Vec<String> = Vec::new();
    let mut i: usize = 0;
    while i < providers.len()
        invariant
            i <= providers.len(),
            names.len() == i,
            forall|k: int| 0 <= k < i ==> #[trigger] names@[k]@ == feature_name(providers@[k]),
        decreases providers.len() - i,
    {
        names.push(owned(feature_of(providers[i])));
        i = i + 1;
    }
    assert(names.deep_view() =~= compiled_list(compiled).map_values(|p: Provider| feature_name(p)));
    if names.len() == 0 {
        owned("none")
    } else {
        join_strings(&names, ", ")
    }
}

/// GPU features compiled into this binary, for diagnostics.
pub fn compiled_features() -> (r: String)
    ensures
        r@ == "none"@,
{
    let r = features_of(compiled_support());
    assert(compiled_list(GpuSet::empty_spec()) =~= Seq::<Provider>::empty()) by {
        reveal_with_fuel(Seq::<Provider>::filter, 5);
    }
    r
}

/// Threads for this engine: an explicit `engine.threads`, clamped to 128
/// before it becomes an `i32`, or `auto` when it is `0`.
pub open spec fn threads_for(threads: usize, auto: i32) -> i32 {
    if threads == 0 {
        auto
    } else if threads <= 128 {
        threads as i32
    } else {
        128
    }
}

/// Threads for this engine: an explicit `engine.threads` (at most 128),
/// or the backend's default `auto` when it is `0`.
pub fn resolve_threads(engine: &EngineConfig, auto: i32) -> (r: i32)
    ensures
        r == threads_for(engine.threads, auto),
{
    if engine.threads == 0 {
        auto
    } else if engine.threads <= 128 {
        engine.threads as i32
    } else {
        128
    }
}

/// A device node named `prefix` followed by at least one ASCII digit
/// (such as `nvidia0` or `renderD128`, but not `nvidia-modeset`).
pub open spec fn numbered_device(name: Seq<char>, prefix: Seq<char>) -> bool {
    &&& has_prefix(name, prefix)
    &&& name.len() > prefix.len()
    &&& forall|k: int| prefix.len() <= k < name.len() ==> '0' <= #[trigger] name[k] <= '9'
}

/// Whether the directory entry `name` is `prefix` followed by a number.
pub fn is_numbered_device(name: &str, prefix: &str) -> (r: bool)
    ensures
        r == numbered_device(name@, prefix@),
{
    if !crate::text::starts_with(name, prefix) {
        return false;
    }
    let v = crate::text::chars_of(name);
    let p = crate::text::chars_of(prefix);
    if v.len() == p.len() {
        return false;
    }
    let mut k = p.len();
    while k < v.len()
        invariant
            p.len() <= k <= v.len(),
            v@ == name@,
            p@ == prefix@,
            forall|j: int| p.len() <= j < k ==> '0' <= #[trigger] v@[j] <= '9',
        decreases v.len() - k,
    {
        if !('0' <= v[k] && v[k] <= '9') {
            return false;
        }
        k = k + 1;
    }
    true
}

/// The diagnostic line `provider_status` prints for a resolved candidate.
pub open spec fn status_line(c: ProviderCandidate, configured: Provider, features: Seq<char>) -> Seq<
    char,
> {
    "candidate `"@ + c.name() + "` (configured `"@ + configured.name() + "`, gpu features: "@
        + features + ")"@
}

/// Preflight the configured compute provider for diagnostics: the same
/// candidate the daemon uses, or the reason a pin is unavailable.
pub fn provider_status(engine: &EngineConfig) -> (r: Result<String, String>)
    ensures
        match resolve_spec(*engine, GpuSet::empty_spec(), GpuSet::empty_spec()) {
            Ok(c) => r is Ok && r->Ok_0@ == status_line(c, engine.provider, "none"@),
            Err(m) => r is Err && r->Err_0@ == m,
        },
{
    match resolve(engine) {
        Ok(c) => {
            let mut s = concat3("candidate `", c.as_str(), "` (configured `");
            s.append(engine.provider.as_str());
            s.append("`, gpu features: ");
            s.append(compiled_features().as_str());
            s.append(")");
            Ok(s)
        },
        Err(m) => Err(m),
    }
}

} // verus!
