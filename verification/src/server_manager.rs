//! The `llama-server` command line built from the settings, and the
//! decisions of the process manager: when a spawn is refused, what is
//! spawned, and how a stop proceeds from SIGTERM to SIGKILL.

use vstd::prelude::*;
use vstd::string::*;
use crate::model::{
    ModelFieldId,
    cache_dir_for_model, model_dir_from_common, server_path_for_model, spec_cache_dir_for_model,
    spec_model_dir_from_common, spec_server_path_for_model, CommonSettings, ModelSettings,
};
use crate::paths::{join_path, parent_dir_or_dot, parent_or_dot, path_join};
use crate::text::{dec, extend_words, lemma_views_push, u64_to_string, views, words};

verus! {

/// `[flag, value]` when `on`, nothing otherwise.
pub open spec fn flag_value(on: bool, flag: Seq<char>, value: Seq<char>) -> Seq<Seq<char>> {
    if on {
        seq![flag, value]
    } else {
        seq![]
    }
}

/// `[flag]` when `on`, nothing otherwise.
pub open spec fn flag_only(on: bool, flag: Seq<char>) -> Seq<Seq<char>> {
    if on {
        seq![flag]
    } else {
        seq![]
    }
}

/// The arguments that every launch starts with.
pub open spec fn fixed_args(c: CommonSettings, m: ModelSettings) -> Seq<Seq<char>> {
    seq![
        "--log-colors"@,
        "on"@,
        "--port"@,
        dec(c.port as nat),
        "--host"@,
        c.host@,
        "--slot-save-path"@,
        spec_cache_dir_for_model(c, m),
    ]
}

/// `acc` followed by the enabled model file, alias, GPU layers, CPU MoE layers and context size arguments.
pub open spec fn model_args_load(acc: Seq<Seq<char>>, c: CommonSettings, m: ModelSettings) -> Seq<Seq<char>> {
    acc
        + flag_value(m.checked(ModelFieldId::Model), "-m"@, path_join(spec_model_dir_from_common(c), m.file@))
        + flag_value(m.checked(ModelFieldId::Alias), "--alias"@, m.name@)
        + flag_value(m.checked(ModelFieldId::GpuLayers), "--n-gpu-layers"@, m.gpu_layers@)
        + flag_value(m.checked(ModelFieldId::CpuMoe), "--n-cpu-moe"@, dec(m.cpu_moe as nat))
        + flag_value(m.checked(ModelFieldId::CtxSize), "--ctx-size"@, dec(m.ctx_size as nat))
}

/// `acc` followed by the enabled KV cache types, temperature, top-p and top-k arguments.
pub open spec fn model_args_cache(acc: Seq<Seq<char>>, c: CommonSettings, m: ModelSettings) -> Seq<Seq<char>> {
    acc
        + flag_value(m.checked(ModelFieldId::KvK), "-ctk"@, m.kv_k@)
        + flag_value(m.checked(ModelFieldId::KvV), "-ctv"@, m.kv_v@)
        + flag_value(m.checked(ModelFieldId::Temperature), "--temp"@, m.temperature.shown@)
        + flag_value(m.checked(ModelFieldId::TopP), "--top-p"@, m.top_p.shown@)
        + flag_value(m.checked(ModelFieldId::TopK), "--top-k"@, dec(m.top_k as nat))
}

/// `acc` followed by the enabled min-p, penalties, mmap and flash attention arguments.
pub open spec fn model_args_sampling(acc: Seq<Seq<char>>, c: CommonSettings, m: ModelSettings) -> Seq<Seq<char>> {
    acc
        + flag_value(m.checked(ModelFieldId::MinP), "--min-p"@, m.min_p.shown@)
        + flag_value(m.checked(ModelFieldId::RepeatPenalty), "--repeat-penalty"@, m.repeat_penalty.shown@)
        + flag_value(m.checked(ModelFieldId::PresencePenalty), "--presence-penalty"@, m.presence_penalty.shown@)
        + flag_only(m.checked(ModelFieldId::NoMmap) && m.no_mmap, "--no-mmap"@)
        + flag_value(m.checked(ModelFieldId::FlashAttn), "--flash-attn"@, m.flash_attn@)
}

/// `acc` followed by the enabled speculative decoding, draft model, RAM cache and load mode arguments.
pub open spec fn model_args_draft(acc: Seq<Seq<char>>, c: CommonSettings, m: ModelSettings) -> Seq<Seq<char>> {
    acc
        + flag_value(m.checked(ModelFieldId::SpecType), "--spec-type"@, m.spec_type@)
        + flag_value(m.checked(ModelFieldId::SpecDraftNMax), "--spec-draft-n-max"@, dec(m.spec_draft_n_max as nat))
        + flag_value(m.checked(ModelFieldId::ModelDraft) && m.model_draft@.len() > 0, "--model-draft"@, m.model_draft@)
        + flag_value(m.checked(ModelFieldId::CacheRam), "--cache-ram"@, dec(m.cache_ram as nat))
        + flag_value(m.checked(ModelFieldId::LoadMode) && m.load_mode@.len() > 0, "--load-mode"@, m.load_mode@)
}

/// `acc` followed by the enabled parallel sequences, threads, MoE expert cache, fit and KV offload arguments.
pub open spec fn model_args_runtime(acc: Seq<Seq<char>>, c: CommonSettings, m: ModelSettings) -> Seq<Seq<char>> {
    acc
        + flag_value(m.checked(ModelFieldId::Parallel), "--parallel"@, dec(m.parallel as nat))
        + flag_value(m.checked(ModelFieldId::Threads), "--threads"@, dec(m.threads as nat))
        + flag_value(m.checked(ModelFieldId::MoeExpertCacheSize), "--moe-expert-cache-size"@, dec(m.moe_expert_cache_size as nat))
        + flag_value(m.checked(ModelFieldId::Fit), "--fit"@, m.fit@)
        + flag_only(m.checked(ModelFieldId::KvOffload), "--kv-offload"@)
}

/// `acc` followed by the enabled Jinja templates and batch sizes arguments.
pub open spec fn model_args_batch(acc: Seq<Seq<char>>, c: CommonSettings, m: ModelSettings) -> Seq<Seq<char>> {
    acc
        + flag_only(m.checked(ModelFieldId::Jinja), "--jinja"@)
        + flag_value(m.checked(ModelFieldId::BatchSize), "--batch-size"@, dec(m.batch_size as nat))
        + flag_value(m.checked(ModelFieldId::UbatchSize), "--ubatch-size"@, dec(m.ubatch_size as nat))
}

/// `acc` followed by the per-model arguments: each enabled parameter with
/// its flag, in a fixed order.
pub open spec fn with_model_args(acc: Seq<Seq<char>>, c: CommonSettings, m: ModelSettings) -> Seq<Seq<char>> {
    model_args_batch(
        model_args_runtime(
            model_args_draft(
                model_args_sampling(model_args_cache(model_args_load(acc, c, m), c, m), c, m),
                c,
                m,
            ),
            c,
            m,
        ),
        c,
        m,
    )
}

/// The model's own extra arguments when checked, then the common ones,
/// split on whitespace.
pub open spec fn extra_args_of(c: CommonSettings, m: ModelSettings) -> Seq<Seq<char>> {
    (if m.checked(ModelFieldId::ExtraArgs) {
        words(m.extra_args@)
    } else {
        seq![]
    }) + words(c.extra_args@)
}

/// The full `llama-server` argument list for `m` under `c`.
pub open spec fn spec_build_args(c: CommonSettings, m: ModelSettings) -> Seq<Seq<char>> {
    with_model_args(fixed_args(c, m), c, m) + extra_args_of(c, m)
}

fn push_str(args: &mut Vec<String>, s: &str)
    ensures
        views(final(args)@) == views(old(args)@).push(s@),
{
    let x = String::from_str(s);
    proof {
        lemma_views_push(args@, x);
    }
    args.push(x);
}

fn push_string(args: &mut Vec<String>, s: String)
    ensures
        views(final(args)@) == views(old(args)@).push(s@),
{
    proof {
        lemma_views_push(args@, s);
    }
    args.push(s);
}

fn push_flag_value(args: &mut Vec<String>, on: bool, flag: &str, value: String)
    ensures
        views(final(args)@) == views(old(args)@) + flag_value(on, flag@, value@),
{
    let ghost before = views(args@);
    if on {
        push_str(args, flag);
        push_string(args, value);
        assert(before.push(flag@).push(value@) =~= before + seq![flag@, value@]);
    } else {
        assert(before =~= before + Seq::<Seq<char>>::empty());
    }
}

fn push_flag_only(args: &mut Vec<String>, on: bool, flag: &str)
    ensures
        views(final(args)@) == views(old(args)@) + flag_only(on, flag@),
{
    let ghost before = views(args@);
    if on {
        push_str(args, flag);
        assert(before.push(flag@) =~= before + seq![flag@]);
    } else {
        assert(before =~= before + Seq::<Seq<char>>::empty());
    }
}

fn push_model_args_load(args: &mut Vec<String>, common: &CommonSettings, model: &ModelSettings)
    ensures
        views(final(args)@) == model_args_load(views(old(args)@), *common, *model),
{
    let m = model;
    let model_dir = model_dir_from_common(common);
    push_flag_value(args, m.is_checked(ModelFieldId::Model), "-m", join_path(model_dir.as_str(), m.file.as_str()));
    push_flag_value(args, m.is_checked(ModelFieldId::Alias), "--alias", m.name.clone());
    push_flag_value(args, m.is_checked(ModelFieldId::GpuLayers), "--n-gpu-layers", m.gpu_layers.clone());
    push_flag_value(args, m.is_checked(ModelFieldId::CpuMoe), "--n-cpu-moe", u64_to_string(m.cpu_moe as u64));
    push_flag_value(args, m.is_checked(ModelFieldId::CtxSize), "--ctx-size", u64_to_string(m.ctx_size as u64));
}

fn push_model_args_cache(args: &mut Vec<String>, common: &CommonSettings, model: &ModelSettings)
    ensures
        views(final(args)@) == model_args_cache(views(old(args)@), *common, *model),
{
    let m = model;
    push_flag_value(args, m.is_checked(ModelFieldId::KvK), "-ctk", m.kv_k.clone());
    push_flag_value(args, m.is_checked(ModelFieldId::KvV), "-ctv", m.kv_v.clone());
    push_flag_value(args, m.is_checked(ModelFieldId::Temperature), "--temp", m.temperature.shown.clone());
    push_flag_value(args, m.is_checked(ModelFieldId::TopP), "--top-p", m.top_p.shown.clone());
    push_flag_value(args, m.is_checked(ModelFieldId::TopK), "--top-k", u64_to_string(m.top_k as u64));
}

fn push_model_args_sampling(args: &mut Vec<String>, common: &CommonSettings, model: &ModelSettings)
    ensures
        views(final(args)@) == model_args_sampling(views(old(args)@), *common, *model),
{
    let m = model;
    push_flag_value(args, m.is_checked(ModelFieldId::MinP), "--min-p", m.min_p.shown.clone());
    push_flag_value(args, m.is_checked(ModelFieldId::RepeatPenalty), "--repeat-penalty", m.repeat_penalty.shown.clone());
    push_flag_value(args, m.is_checked(ModelFieldId::PresencePenalty), "--presence-penalty", m.presence_penalty.shown.clone());
    push_flag_only(args, m.is_checked(ModelFieldId::NoMmap) && m.no_mmap, "--no-mmap");
    push_flag_value(args, m.is_checked(ModelFieldId::FlashAttn), "--flash-attn", m.flash_attn.clone());
}

fn push_model_args_draft(args: &mut Vec<String>, common: &CommonSettings, model: &ModelSettings)
    ensures
        views(final(args)@) == model_args_draft(views(old(args)@), *common, *model),
{
    let m = model;
    push_flag_value(args, m.is_checked(ModelFieldId::SpecType), "--spec-type", m.spec_type.clone());
    push_flag_value(args, m.is_checked(ModelFieldId::SpecDraftNMax), "--spec-draft-n-max", u64_to_string(m.spec_draft_n_max as u64));
    push_flag_value(args, m.is_checked(ModelFieldId::ModelDraft) && m.model_draft.as_str().unicode_len() > 0, "--model-draft", m.model_draft.clone());
    push_flag_value(args, m.is_checked(ModelFieldId::CacheRam), "--cache-ram", u64_to_string(m.cache_ram as u64));
    push_flag_value(args, m.is_checked(ModelFieldId::LoadMode) && m.load_mode.as_str().unicode_len() > 0, "--load-mode", m.load_mode.clone());
}

fn push_model_args_runtime(args: &mut Vec<String>, common: &CommonSettings, model: &ModelSettings)
    ensures
        views(final(args)@) == model_args_runtime(views(old(args)@), *common, *model),
{
    let m = model;
    push_flag_value(args, m.is_checked(ModelFieldId::Parallel), "--parallel", u64_to_string(m.parallel as u64));
    push_flag_value(args, m.is_checked(ModelFieldId::Threads), "--threads", u64_to_string(m.threads as u64));
    push_flag_value(args, m.is_checked(ModelFieldId::MoeExpertCacheSize), "--moe-expert-cache-size", u64_to_string(m.moe_expert_cache_size as u64));
    push_flag_value(args, m.is_checked(ModelFieldId::Fit), "--fit", m.fit.clone());
    push_flag_only(args, m.is_checked(ModelFieldId::KvOffload), "--kv-offload");
}

fn push_model_args_batch(args: &mut Vec<String>, common: &CommonSettings, model: &ModelSettings)
    ensures
        views(final(args)@) == model_args_batch(views(old(args)@), *common, *model),
{
    let m = model;
    push_flag_only(args, m.is_checked(ModelFieldId::Jinja), "--jinja");
    push_flag_value(args, m.is_checked(ModelFieldId::BatchSize), "--batch-size", u64_to_string(m.batch_size as u64));
    push_flag_value(args, m.is_checked(ModelFieldId::UbatchSize), "--ubatch-size", u64_to_string(m.ubatch_size as u64));
}

fn push_model_args(args: &mut Vec<String>, common: &CommonSettings, model: &ModelSettings)
    ensures
        views(final(args)@) == with_model_args(views(old(args)@), *common, *model),
{
    push_model_args_load(args, common, model);
    push_model_args_cache(args, common, model);
    push_model_args_sampling(args, common, model);
    push_model_args_draft(args, common, model);
    push_model_args_runtime(args, common, model);
    push_model_args_batch(args, common, model);
}

/// Merges common and per-model settings into the full `llama-server`
/// argument list; only checkbox-enabled per-model settings are passed.
fn build_args(common: &CommonSettings, model: &ModelSettings) -> (args: Vec<String>)
    ensures
        views(args@) == spec_build_args(*common, *model),
{
    let mut args: Vec<String> = Vec::new();
    push_str(&mut args, "--log-colors");
    push_str(&mut args, "on");
    push_str(&mut args, "--port");
    push_string(&mut args, u64_to_string(common.port as u64));
    push_str(&mut args, "--host");
    push_string(&mut args, common.host.clone());
    push_str(&mut args, "--slot-save-path");
    push_string(&mut args, cache_dir_for_model(common, model));
    assert(views(args@) =~= fixed_args(*common, *model));
    push_model_args(&mut args, common, model);
    let ghost s1 = views(args@);
    if model.is_checked(ModelFieldId::ExtraArgs) {
        extend_words(&mut args, model.extra_args.as_str());
    } else {
        assert(s1 =~= s1 + Seq::<Seq<char>>::empty());
    }
    let ghost s2 = views(args@);
    extend_words(&mut args, common.extra_args.as_str());
    assert(s2 + words(common.extra_args@) == s1 + extra_args_of(*common, *model)) by {
        let a = if model.checked(ModelFieldId::ExtraArgs) { words(model.extra_args@) } else { seq![] };
        assert(s2 == s1 + a);
        assert((s1 + a) + words(common.extra_args@) =~= s1 + (a + words(common.extra_args@)));
    }
    args
}

/// The full `llama-server` argument list, as it is shown to the user.
pub fn build_args_display(common: &CommonSettings, model: &ModelSettings) -> (args: Vec<String>)
    ensures
        views(args@) == spec_build_args(*common, *model),
{
    build_args(common, model)
}

// ── Process manager ──

/// Messages from the server's reader and wait threads to the UI.
#[derive(Debug, Clone)]
pub enum ServerEvent {
    StdoutLine(String),
    StderrLine(String),
    Exited(i32),
}

/// What is known of the `llama-server` child process: its pid, once
/// spawned and until a stop is begun, and whether it is still running.
pub struct ServerManager {
    pid: Option<u32>,
    running: bool,
}

/// What to spawn: the program, its arguments, and its working directory.
pub struct SpawnPlan {
    pub program: String,
    pub args: Vec<String>,
    pub work_dir: String,
}

/// How long a stopping server gets between SIGTERM and SIGKILL.
pub const STOP_GRACE_MS: u64 = 20000;

/// How long to wait between two checks of a stopping server.
pub const STOP_POLL_MS: u64 = 200;

/// The next step of a stop in progress.
#[derive(Debug, Clone, Copy, PartialEq, Eq)]
pub enum StopStep {
    /// The process is gone: the stop is complete.
    Finished,
    /// The grace period is over: send SIGKILL, and the stop is complete.
    ForceKill,
    /// Wait `STOP_POLL_MS` and check again.
    WaitAndRetry,
}

/// The step a stop takes when the process is (or is not) gone after
/// `elapsed_ms` milliseconds.
pub open spec fn spec_stop_step(process_gone: bool, elapsed_ms: u64) -> StopStep {
    if process_gone {
        StopStep::Finished
    } else if elapsed_ms >= STOP_GRACE_MS {
        StopStep::ForceKill
    } else {
        StopStep::WaitAndRetry
    }
}

/// Decides the next step of a stop: done once the process is gone,
/// SIGKILL once the grace period is over, otherwise wait and retry.
pub fn stop_step(process_gone: bool, elapsed_ms: u64) -> (r: StopStep)
    ensures
        r == spec_stop_step(process_gone, elapsed_ms),
{
    if process_gone {
        StopStep::Finished
    } else if elapsed_ms >= STOP_GRACE_MS {
        StopStep::ForceKill
    } else {
        StopStep::WaitAndRetry
    }
}

impl ServerManager {
    /// The pid of the spawned server, until a stop is begun.
    pub closed spec fn pid_of(self) -> Option<u32> {
        self.pid
    }

    /// Whether the server is running.
    pub closed spec fn running_flag(self) -> bool {
        self.running
    }

    /// A manager with no server.
    pub fn new() -> (r: Self)
        ensures
            r.pid_of() is None,
            !r.running_flag(),
    {
        ServerManager { pid: None, running: false }
    }

    /// Checks whether the server is running.
    pub fn is_running(&self) -> (b: bool)
        ensures
            b == self.running_flag(),
    {
        self.running
    }

    /// Records what the process watcher observed: whether the child still
    /// runs.
    pub fn set_running(&mut self, running: bool)
        ensures
            final(self).running_flag() == running,
            final(self).pid_of() == old(self).pid_of(),
    {
        self.running = running;
    }

    /// What to spawn for `model`: refused while a server runs; otherwise the
    /// model's server binary, the merged arguments, and the binary's parent
    /// directory as working directory.
    pub fn spawn_plan(&self, common: &CommonSettings, model: &ModelSettings) -> (r: Result<
        SpawnPlan,
        String,
    >)
        ensures
            match r {
                Ok(plan) => {
                    &&& !self.running_flag()
                    &&& plan.program@ == spec_server_path_for_model(*common, *model)
                    &&& views(plan.args@) == spec_build_args(*common, *model)
                    &&& plan.work_dir@ == parent_or_dot(plan.program@)
                },
                Err(e) => self.running_flag() && e@ == "Server is already running"@,
            },
    {
        if self.running {
            return Err(String::from_str("Server is already running"));
        }
        let program = server_path_for_model(common, model);
        let args = build_args(common, model);
        let work_dir = parent_dir_or_dot(program.as_str());
        Ok(SpawnPlan { program, args, work_dir })
    }

    /// Records a spawned server.
    pub fn record_spawned(&mut self, pid: u32)
        ensures
            final(self).pid_of() == Some(pid),
            final(self).running_flag(),
    {
        self.pid = Some(pid);
        self.running = true;
    }

    /// Begins a stop: hands out the pid to signal and forgets it; without a
    /// server, refuses.
    pub fn begin_stop(&mut self) -> (r: Result<u32, String>)
        ensures
            match old(self).pid_of() {
                Some(p) => r == Ok::<u32, String>(p) && final(self).pid_of() is None,
                None => r matches Err(e) && e@ == "No server running"@ && final(self).pid_of()
                    is None,
            },
            final(self).running_flag() == old(self).running_flag(),
    {
        match self.pid {
            Some(p) => {
                self.pid = None;
                Ok(p)
            },
            None => Err(String::from_str("No server running")),
        }
    }

    /// Records that a stop is complete.
    pub fn finish_stop(&mut self)
        ensures
            !final(self).running_flag(),
            final(self).pid_of() == old(self).pid_of(),
    {
        self.running = false;
    }
}

/// `a` and `b` have the same checkboxes, and agree on every parameter whose
/// checkbox is set.
pub open spec fn same_enabled_settings(a: ModelSettings, b: ModelSettings) -> bool {
    &&& a.enabled@ == b.enabled@
    &&& a.checked(ModelFieldId::Model) ==> a.file@ == b.file@
    &&& a.checked(ModelFieldId::ModelDraft) ==> a.model_draft@ == b.model_draft@
    &&& a.checked(ModelFieldId::Alias) ==> a.name@ == b.name@
    &&& a.checked(ModelFieldId::SpecType) ==> a.spec_type@ == b.spec_type@
    &&& a.checked(ModelFieldId::SpecDraftNMax) ==> a.spec_draft_n_max == b.spec_draft_n_max
    &&& a.checked(ModelFieldId::CacheDir) ==> a.cache_dir@ == b.cache_dir@
    &&& a.checked(ModelFieldId::GpuLayers) ==> a.gpu_layers@ == b.gpu_layers@
    &&& a.checked(ModelFieldId::CpuMoe) ==> a.cpu_moe == b.cpu_moe
    &&& a.checked(ModelFieldId::Threads) ==> a.threads == b.threads
    &&& a.checked(ModelFieldId::MoeExpertCacheSize) ==> a.moe_expert_cache_size == b.moe_expert_cache_size
    &&& a.checked(ModelFieldId::CtxSize) ==> a.ctx_size == b.ctx_size
    &&& a.checked(ModelFieldId::KvK) ==> a.kv_k@ == b.kv_k@
    &&& a.checked(ModelFieldId::KvV) ==> a.kv_v@ == b.kv_v@
    &&& a.checked(ModelFieldId::Temperature) ==> a.temperature.shown@ == b.temperature.shown@
    &&& a.checked(ModelFieldId::TopK) ==> a.top_k == b.top_k
    &&& a.checked(ModelFieldId::TopP) ==> a.top_p.shown@ == b.top_p.shown@
    &&& a.checked(ModelFieldId::MinP) ==> a.min_p.shown@ == b.min_p.shown@
    &&& a.checked(ModelFieldId::RepeatPenalty) ==> a.repeat_penalty.shown@ == b.repeat_penalty.shown@
    &&& a.checked(ModelFieldId::PresencePenalty) ==> a.presence_penalty.shown@ == b.presence_penalty.shown@
    &&& a.checked(ModelFieldId::BatchSize) ==> a.batch_size == b.batch_size
    &&& a.checked(ModelFieldId::UbatchSize) ==> a.ubatch_size == b.ubatch_size
    &&& a.checked(ModelFieldId::NoMmap) ==> a.no_mmap == b.no_mmap
    &&& a.checked(ModelFieldId::FlashAttn) ==> a.flash_attn@ == b.flash_attn@
    &&& a.checked(ModelFieldId::CacheRam) ==> a.cache_ram == b.cache_ram
    &&& a.checked(ModelFieldId::LoadMode) ==> a.load_mode@ == b.load_mode@
    &&& a.checked(ModelFieldId::Parallel) ==> a.parallel == b.parallel
    &&& a.checked(ModelFieldId::Fit) ==> a.fit@ == b.fit@
    &&& a.checked(ModelFieldId::ExtraArgs) ==> a.extra_args@ == b.extra_args@
}

proof fn lemma_model_args_load_agree(acc: Seq<Seq<char>>, c: CommonSettings, a: ModelSettings, b: ModelSettings)
    requires
        same_enabled_settings(a, b),
    ensures
        model_args_load(acc, c, a) == model_args_load(acc, c, b),
{
}

proof fn lemma_model_args_cache_agree(acc: Seq<Seq<char>>, c: CommonSettings, a: ModelSettings, b: ModelSettings)
    requires
        same_enabled_settings(a, b),
    ensures
        model_args_cache(acc, c, a) == model_args_cache(acc, c, b),
{
}

proof fn lemma_model_args_sampling_agree(acc: Seq<Seq<char>>, c: CommonSettings, a: ModelSettings, b: ModelSettings)
    requires
        same_enabled_settings(a, b),
    ensures
        model_args_sampling(acc, c, a) == model_args_sampling(acc, c, b),
{
}

proof fn lemma_model_args_draft_agree(acc: Seq<Seq<char>>, c: CommonSettings, a: ModelSettings, b: ModelSettings)
    requires
        same_enabled_settings(a, b),
    ensures
        model_args_draft(acc, c, a) == model_args_draft(acc, c, b),
{
}

proof fn lemma_model_args_runtime_agree(acc: Seq<Seq<char>>, c: CommonSettings, a: ModelSettings, b: ModelSettings)
    requires
        same_enabled_settings(a, b),
    ensures
        model_args_runtime(acc, c, a) == model_args_runtime(acc, c, b),
{
}

proof fn lemma_model_args_batch_agree(acc: Seq<Seq<char>>, c: CommonSettings, a: ModelSettings, b: ModelSettings)
    requires
        same_enabled_settings(a, b),
    ensures
        model_args_batch(acc, c, a) == model_args_batch(acc, c, b),
{
}

/// Only checkbox-enabled per-model settings are passed: two models that
/// agree on their checkboxes and on every checked parameter get the same
/// command line, whatever their unchecked parameters hold.
pub proof fn law_unchecked_settings_are_not_passed(
    c: CommonSettings,
    a: ModelSettings,
    b: ModelSettings,
)
    requires
        same_enabled_settings(a, b),
    ensures
        spec_build_args(c, a) == spec_build_args(c, b),
{
    let s0 = fixed_args(c, a);
    assert(s0 == fixed_args(c, b));
    lemma_model_args_load_agree(s0, c, a, b);
    let s1 = model_args_load(s0, c, a);
    lemma_model_args_cache_agree(s1, c, a, b);
    let s2 = model_args_cache(s1, c, a);
    lemma_model_args_sampling_agree(s2, c, a, b);
    let s3 = model_args_sampling(s2, c, a);
    lemma_model_args_draft_agree(s3, c, a, b);
    let s4 = model_args_draft(s3, c, a);
    lemma_model_args_runtime_agree(s4, c, a, b);
    let s5 = model_args_runtime(s4, c, a);
    lemma_model_args_batch_agree(s5, c, a, b);
    assert(extra_args_of(c, a) == extra_args_of(c, b));
}

/// Every per-model checkbox is clear.
pub open spec fn all_unchecked(m: ModelSettings) -> bool {
    forall|i: int| 0 <= i < 31 ==> !m.enabled@[i]
}

/// With every checkbox clear and no common extra arguments, the command
/// line holds only the colour, port, host and slot-save-path arguments.
pub proof fn law_unchecked_model_gets_fixed_args(c: CommonSettings, m: ModelSettings)
    requires
        all_unchecked(m),
        c.extra_args@.len() == 0,
    ensures
        spec_build_args(c, m) == fixed_args(c, m),
{
    let e = Seq::<Seq<char>>::empty();
    let s = fixed_args(c, m);
    assert(model_args_load(s, c, m) =~= s);
    assert(model_args_cache(s, c, m) =~= s);
    assert(model_args_sampling(s, c, m) =~= s);
    assert(model_args_draft(s, c, m) =~= s);
    assert(model_args_runtime(s, c, m) =~= s);
    assert(model_args_batch(s, c, m) =~= s);
    assert(words(c.extra_args@) == e);
    assert(extra_args_of(c, m) =~= e);
    assert(s + e =~= s);
}

// ── The running flag over a history of calls ──

/// A call that changes the process manager.
#[derive(Debug, Clone, Copy, PartialEq, Eq, Structural)]
pub enum ManagerOp {
    /// `record_spawned` after a successful spawn.
    Spawned(u32),
    /// A successful `begin_stop`.
    StopBegun,
    /// `finish_stop` once the process is gone.
    StopFinished,
    /// `set_running` with what the process watcher saw (false once the
    /// child has exited).
    Observed(bool),
}

/// `r` is `m` after `op`, as the method that performs `op` states it.
pub open spec fn manager_step(m: ServerManager, op: ManagerOp, r: ServerManager) -> bool {
    match op {
        ManagerOp::Spawned(p) => r.pid_of() == Some(p) && r.running_flag(),
        ManagerOp::StopBegun => r.pid_of() is None && r.running_flag() == m.running_flag(),
        ManagerOp::StopFinished => !r.running_flag() && r.pid_of() == m.pid_of(),
        ManagerOp::Observed(b) => r.running_flag() == b && r.pid_of() == m.pid_of(),
    }
}

/// `ms` are the states of a manager created by `new` and then changed by
/// the calls `ops` in turn.
pub open spec fn manager_history(ms: Seq<ServerManager>, ops: Seq<ManagerOp>) -> bool {
    &&& ms.len() == ops.len() + 1
    &&& ms[0].pid_of() is None
    &&& !ms[0].running_flag()
    &&& forall|i: int| 0 <= i < ops.len() ==> manager_step(ms[i], #[trigger] ops[i], ms[i + 1])
}

/// The calls that clear the flag: a finished stop, or the watcher seeing
/// the child gone.
pub open spec fn clears_running(op: ManagerOp) -> bool {
    op is StopFinished || op == ManagerOp::Observed(false)
}

/// Some call among `ops` that satisfies `start` is followed by none that
/// clears the flag.
pub open spec fn started_and_kept(ops: Seq<ManagerOp>, spawn_only: bool) -> bool {
    exists|i: int|
        0 <= i < ops.len() && (#[trigger] ops[i] is Spawned || (!spawn_only && ops[i]
            == ManagerOp::Observed(true))) && forall|j: int| i < j < ops.len() ==> !clears_running(
            #[trigger] ops[j],
        )
}

/// The watcher only reports a running child while the flag is already set.
pub open spec fn watcher_agrees(ms: Seq<ManagerOp>, states: Seq<ServerManager>) -> bool {
    forall|i: int| 0 <= i < ms.len() && #[trigger] ms[i] == ManagerOp::Observed(true) ==> states[i].running_flag()
}

/// The server counts as running exactly when a spawn was recorded and no
/// finished stop and no observed exit came after it: after any history of
/// calls, `is_running` reports whether some call that sets the flag is
/// followed by none that clears it, and, where the watcher reports a
/// running child only while the flag is set, whether some recorded spawn
/// is followed by no finished stop and no exit. Beginning a stop leaves
/// the flag as it was.
pub proof fn law_running_flag_follows_history(ms: Seq<ServerManager>, ops: Seq<ManagerOp>)
    requires
        manager_history(ms, ops),
    ensures
        ms[ops.len() as int].running_flag() == started_and_kept(ops, false),
        watcher_agrees(ops, ms) ==> ms[ops.len() as int].running_flag() == started_and_kept(
            ops,
            true,
        ),
    decreases ops.len(),
{
    let n = ops.len() as int;
    if n == 0 {
        return;
    }
    let pops = ops.drop_last();
    let pms = ms.drop_last();
    assert forall|i: int| 0 <= i < pops.len() implies manager_step(
        pms[i],
        #[trigger] pops[i],
        pms[i + 1],
    ) by {
        assert(manager_step(ms[i], ops[i], ms[i + 1]));
    }
    law_running_flag_follows_history(pms, pops);
    let last = ops[n - 1];
    assert(manager_step(ms[n - 1], last, ms[n]));
    assert(pms[n - 1] == ms[n - 1]);
    // the witnesses of the history without its last call
    assert forall|b: bool| started_and_kept(pops, b) && !clears_running(last) implies started_and_kept(
        ops,
        b,
    ) by {
        let i = choose|i: int|
            0 <= i < pops.len() && (#[trigger] pops[i] is Spawned || (!b && pops[i]
                == ManagerOp::Observed(true))) && forall|j: int| i < j < pops.len() ==> !clears_running(
                #[trigger] pops[j],
            );
        assert(ops[i] == pops[i]);
        assert forall|j: int| i < j < ops.len() implies !clears_running(#[trigger] ops[j]) by {
            if j < n - 1 {
                assert(ops[j] == pops[j]);
            }
        }
    }
    assert forall|b: bool| started_and_kept(ops, b) && !(last is Spawned || (!b && last
        == ManagerOp::Observed(true))) implies started_and_kept(pops, b) by {
        let i = choose|i: int|
            0 <= i < ops.len() && (#[trigger] ops[i] is Spawned || (!b && ops[i]
                == ManagerOp::Observed(true))) && forall|j: int| i < j < ops.len() ==> !clears_running(
                #[trigger] ops[j],
            );
        assert(i < n - 1);
        assert(pops[i] == ops[i]);
        assert forall|j: int| i < j < pops.len() implies !clears_running(#[trigger] pops[j]) by {
            assert(pops[j] == ops[j]);
        }
    }
    assert forall|b: bool| clears_running(last) implies !started_and_kept(ops, b) by {
        if started_and_kept(ops, b) {
            let i = choose|i: int|
                0 <= i < ops.len() && (#[trigger] ops[i] is Spawned || (!b && ops[i]
                    == ManagerOp::Observed(true))) && forall|j: int| i < j < ops.len() ==> !clears_running(
                    #[trigger] ops[j],
                );
            if i < n - 1 {
                assert(!clears_running(ops[n - 1]));
            }
        }
    }
    assert forall|b: bool| (last is Spawned || (!b && last == ManagerOp::Observed(true))) implies started_and_kept(ops, b) by {
        assert(ops[n - 1] == last);
    }
    if watcher_agrees(ops, ms) {
        assert forall|i: int| 0 <= i < pops.len() && #[trigger] pops[i] == ManagerOp::Observed(true) implies pms[i].running_flag() by {
            assert(ops[i] == pops[i]);
        }
        assert(watcher_agrees(pops, pms));
        if last == ManagerOp::Observed(true) {
            assert(ms[n - 1].running_flag());
        }
    }
}

} // verus!
