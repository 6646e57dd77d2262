//! The configuration model: common settings, per-model settings with their
//! enable checkboxes, the top-level configuration, and the directories that
//! are derived from them.

use vstd::prelude::*;
use vstd::string::*;
use crate::text::{lemma_seq_lt_total, lemma_seq_lt_trans, seq_le, seq_lt, str_lt, views};
use crate::paths::{is_absolute, is_absolute_path, join_path, parent_dir_or_dot, parent_or_dot, path_join};

verus! {

// ── Common settings ──

/// Settings shared by every model.
#[derive(Debug, Clone, PartialEq)]
pub struct CommonSettings {
    /// Full path of the `llama-server` executable.
    pub llama_server_path: String,
    pub host: String,
    pub port: u16,
    /// Explicit cache directory; when empty (or relative) it is derived
    /// from `llama_server_path`.
    pub cache_dir: String,
    pub mid_pane_height: u16,
    /// Path to `llama-server-update.sh`.
    pub update_script_path: String,
    /// Extra arguments passed to every model.
    pub extra_args: String,
    /// Explicit model directory; when empty it is derived from
    /// `llama_server_path`.
    pub model_dir: String,
}

/// The update script's default location under the home directory `home`.
pub open spec fn spec_default_update_script(home: Seq<char>) -> Seq<char> {
    home + "/Develop/llamacpp_loader/llama-server-loader/llama-server-update.sh"@
}

/// The default update-script path for the home directory `home`.
pub fn default_update_script(home: &str) -> (r: String)
    ensures
        r@ == spec_default_update_script(home@),
{
    let mut r = String::from_str(home);
    r.append("/Develop/llamacpp_loader/llama-server-loader/llama-server-update.sh");
    r
}

impl CommonSettings {
    /// The default common settings, for the home directory `home`.
    pub open spec fn is_default_for(self, home: Seq<char>) -> bool {
        &&& self.llama_server_path@ == "llama-server"@
        &&& self.host@ == "0.0.0.0"@
        &&& self.port == 11400
        &&& self.cache_dir@ == Seq::<char>::empty()
        &&& self.mid_pane_height == 19
        &&& self.update_script_path@ == spec_default_update_script(home)
        &&& self.extra_args@ == Seq::<char>::empty()
        &&& self.model_dir@ == Seq::<char>::empty()
    }

    /// The default common settings, with the update script under `home`.
    pub fn default_for_home(home: &str) -> (c: Self)
        ensures
            c.is_default_for(home@),
    {
        CommonSettings {
            llama_server_path: String::from_str("llama-server"),
            host: String::from_str("0.0.0.0"),
            port: 11400,
            cache_dir: String::new(),
            mid_pane_height: 19,
            update_script_path: default_update_script(home),
            extra_args: String::new(),
            model_dir: String::new(),
        }
    }
}

// ── Per-model settings ──

/// A decimal sampling parameter, kept as the two renderings that the
/// launcher uses: the shortest one (`shown`, passed on the command line)
/// and the one with two decimal places (`two_places`, shown in the editor
/// for some fields).
#[derive(Debug, Clone, PartialEq)]
pub struct DecimalValue {
    pub shown: String,
    pub two_places: String,
}

impl DecimalValue {
    /// Builds a decimal value from its two renderings.
    pub fn from_texts(shown: &str, two_places: &str) -> (d: Self)
        ensures
            d.shown@ == shown@,
            d.two_places@ == two_places@,
    {
        DecimalValue { shown: String::from_str(shown), two_places: String::from_str(two_places) }
    }
}

/// The per-model fields, in the order the Configure tab lists them.
#[derive(Debug, Clone, Copy, PartialEq, Eq)]
pub enum ModelFieldId {
    LlamaServerPath,
    Model,
    ModelDraft,
    Alias,
    SpecType,
    SpecDraftNMax,
    CacheDir,
    GpuLayers,
    CpuMoe,
    Threads,
    MoeExpertCacheSize,
    CtxSize,
    KvK,
    KvV,
    Temperature,
    TopK,
    TopP,
    MinP,
    RepeatPenalty,
    PresencePenalty,
    BatchSize,
    UbatchSize,
    NoMmap,
    FlashAttn,
    CacheRam,
    LoadMode,
    Parallel,
    Fit,
    KvOffload,
    Jinja,
    ExtraArgs,
}

/// How many per-model fields there are.
pub const MODEL_FIELD_COUNT: usize = 31;

/// The position of a field in the list.
pub open spec fn field_index(id: ModelFieldId) -> int {
    match id {
        ModelFieldId::LlamaServerPath => 0,
        ModelFieldId::Model => 1,
        ModelFieldId::ModelDraft => 2,
        ModelFieldId::Alias => 3,
        ModelFieldId::SpecType => 4,
        ModelFieldId::SpecDraftNMax => 5,
        ModelFieldId::CacheDir => 6,
        ModelFieldId::GpuLayers => 7,
        ModelFieldId::CpuMoe => 8,
        ModelFieldId::Threads => 9,
        ModelFieldId::MoeExpertCacheSize => 10,
        ModelFieldId::CtxSize => 11,
        ModelFieldId::KvK => 12,
        ModelFieldId::KvV => 13,
        ModelFieldId::Temperature => 14,
        ModelFieldId::TopK => 15,
        ModelFieldId::TopP => 16,
        ModelFieldId::MinP => 17,
        ModelFieldId::RepeatPenalty => 18,
        ModelFieldId::PresencePenalty => 19,
        ModelFieldId::BatchSize => 20,
        ModelFieldId::UbatchSize => 21,
        ModelFieldId::NoMmap => 22,
        ModelFieldId::FlashAttn => 23,
        ModelFieldId::CacheRam => 24,
        ModelFieldId::LoadMode => 25,
        ModelFieldId::Parallel => 26,
        ModelFieldId::Fit => 27,
        ModelFieldId::KvOffload => 28,
        ModelFieldId::Jinja => 29,
        ModelFieldId::ExtraArgs => 30,
    }
}

/// The position of a field in the list.
pub fn model_field_index(id: ModelFieldId) -> (i: usize)
    ensures
        i as int == field_index(id),
        i < MODEL_FIELD_COUNT,
{
    match id {
        ModelFieldId::LlamaServerPath => 0,
        ModelFieldId::Model => 1,
        ModelFieldId::ModelDraft => 2,
        ModelFieldId::Alias => 3,
        ModelFieldId::SpecType => 4,
        ModelFieldId::SpecDraftNMax => 5,
        ModelFieldId::CacheDir => 6,
        ModelFieldId::GpuLayers => 7,
        ModelFieldId::CpuMoe => 8,
        ModelFieldId::Threads => 9,
        ModelFieldId::MoeExpertCacheSize => 10,
        ModelFieldId::CtxSize => 11,
        ModelFieldId::KvK => 12,
        ModelFieldId::KvV => 13,
        ModelFieldId::Temperature => 14,
        ModelFieldId::TopK => 15,
        ModelFieldId::TopP => 16,
        ModelFieldId::MinP => 17,
        ModelFieldId::RepeatPenalty => 18,
        ModelFieldId::PresencePenalty => 19,
        ModelFieldId::BatchSize => 20,
        ModelFieldId::UbatchSize => 21,
        ModelFieldId::NoMmap => 22,
        ModelFieldId::FlashAttn => 23,
        ModelFieldId::CacheRam => 24,
        ModelFieldId::LoadMode => 25,
        ModelFieldId::Parallel => 26,
        ModelFieldId::Fit => 27,
        ModelFieldId::KvOffload => 28,
        ModelFieldId::Jinja => 29,
        ModelFieldId::ExtraArgs => 30,
    }
}

/// The checkboxes a new model starts with.
pub open spec fn default_checks() -> Seq<bool> {
    seq![
        false,
        true,
        false,
        true,
        false,
        false,
        false,
        true,
        false,
        false,
        false,
        true,
        true,
        true,
        true,
        true,
        true,
        true,
        true,
        true,
        false,
        false,
        true,
        true,
        false,
        false,
        false,
        false,
        true,
        false,
        false,
    ]
}

/// Settings of one model. Each field of the Configure tab has a checkbox in
/// `enabled`, at the field's position; only checked parameters reach the
/// command line.
#[derive(Debug, Clone, PartialEq)]
pub struct ModelSettings {
    /// Alias (`--alias`).
    pub name: String,
    /// Model file name inside the model directory (`-m`).
    pub file: String,
    /// Per-model server binary; the common one is used when unchecked.
    pub llama_server_path: String,
    /// Per-model cache directory (`--slot-save-path`).
    pub cache_dir: String,
    pub model_draft: String,
    pub spec_type: String,
    pub spec_draft_n_max: u32,
    /// Free text: `auto`, `all` or a number.
    pub gpu_layers: String,
    pub cpu_moe: u32,
    pub threads: u32,
    pub moe_expert_cache_size: u32,
    pub ctx_size: u32,
    pub kv_k: String,
    pub kv_v: String,
    pub temperature: DecimalValue,
    pub top_k: u32,
    pub top_p: DecimalValue,
    pub min_p: DecimalValue,
    pub repeat_penalty: DecimalValue,
    pub presence_penalty: DecimalValue,
    pub batch_size: u32,
    pub ubatch_size: u32,
    pub no_mmap: bool,
    pub flash_attn: String,
    pub cache_ram: u32,
    pub load_mode: String,
    pub parallel: u32,
    pub fit: String,
    pub extra_args: String,
    /// The checkboxes, one per field, in the order of `ModelFieldId`.
    pub enabled: [bool; 31],
}

/// Whether `d` renders as `shown` and `two`.
pub open spec fn decimal_is(d: DecimalValue, shown: Seq<char>, two: Seq<char>) -> bool {
    d.shown@ == shown && d.two_places@ == two
}

/// The default of a checkbox that a saved configuration leaves out: set.
pub fn default_true() -> (b: bool)
    ensures
        b,
{
    true
}

/// The default flash-attention mode.
pub fn default_flash_attn() -> (s: String)
    ensures
        s@ == "on"@,
{
    String::from_str("on")
}

/// The default speculative-decoding type.
pub fn default_spec_type() -> (s: String)
    ensures
        s@ == "none"@,
{
    String::from_str("none")
}

/// The default most draft tokens for speculative decoding.
pub fn default_spec_draft() -> (n: u32)
    ensures
        n == 2,
{
    2
}

/// The default number of layers offloaded to the GPU.
pub fn default_gpu_layers() -> (s: String)
    ensures
        s@ == "75"@,
{
    String::from_str("75")
}

/// The default context size.
pub fn default_ctx_size() -> (n: u32)
    ensures
        n == 262144,
{
    262144
}

/// The default KV cache quantization.
pub fn default_kv() -> (s: String)
    ensures
        s@ == "q8_0"@,
{
    String::from_str("q8_0")
}

/// The default sampling temperature.
pub fn default_temp() -> (d: DecimalValue)
    ensures
        decimal_is(d, "1"@, "1.00"@),
{
    DecimalValue::from_texts("1", "1.00")
}

/// The default top-k.
pub fn default_top_k() -> (n: u32)
    ensures
        n == 40,
{
    40
}

/// The default top-p.
pub fn default_top_p() -> (d: DecimalValue)
    ensures
        decimal_is(d, "0.95"@, "0.95"@),
{
    DecimalValue::from_texts("0.95", "0.95")
}

/// The default repeat penalty.
pub fn default_penalty() -> (d: DecimalValue)
    ensures
        decimal_is(d, "1"@, "1.00"@),
{
    DecimalValue::from_texts("1", "1.00")
}

impl ModelSettings {
    /// Whether the checkbox of field `id` is set.
    pub open spec fn checked(self, id: ModelFieldId) -> bool {
        self.enabled@[field_index(id)]
    }

    /// Whether the checkbox of field `id` is set.
    pub fn is_checked(&self, id: ModelFieldId) -> (b: bool)
        ensures
            b == self.checked(id),
    {
        self.enabled[model_field_index(id)]
    }

    /// The default settings of a model with alias `name` and file `file`.
    pub open spec fn is_default_for(self, name: Seq<char>, file: Seq<char>) -> bool {
        &&& self.name@ == name
        &&& self.file@ == file
        &&& self.llama_server_path@ == Seq::<char>::empty()
        &&& self.cache_dir@ == Seq::<char>::empty()
        &&& self.model_draft@ == Seq::<char>::empty()
        &&& self.spec_type@ == "none"@
        &&& self.spec_draft_n_max == 2
        &&& self.gpu_layers@ == "75"@
        &&& self.cpu_moe == 0
        &&& self.threads == 0
        &&& self.moe_expert_cache_size == 0
        &&& self.ctx_size == 262144
        &&& self.kv_k@ == "q8_0"@
        &&& self.kv_v@ == "q8_0"@
        &&& decimal_is(self.temperature, "1"@, "1.00"@)
        &&& self.top_k == 40
        &&& decimal_is(self.top_p, "0.95"@, "0.95"@)
        &&& decimal_is(self.min_p, "0"@, "0.00"@)
        &&& decimal_is(self.repeat_penalty, "1"@, "1.00"@)
        &&& decimal_is(self.presence_penalty, "0"@, "0.00"@)
        &&& self.batch_size == 2048
        &&& self.ubatch_size == 512
        &&& self.no_mmap
        &&& self.flash_attn@ == "on"@
        &&& self.cache_ram == 0
        &&& self.load_mode@ == Seq::<char>::empty()
        &&& self.parallel == 1
        &&& self.fit@ == "on"@
        &&& self.extra_args@ == Seq::<char>::empty()
        &&& self.enabled@ == default_checks()
    }

    /// Default settings for a model with the given alias and file name.
    pub fn named(name: String, file: String) -> (m: Self)
        ensures
            m.is_default_for(name@, file@),
    {
        let checks: [bool; 31] = [false, true, false, true, false, false, false, true, false, false, false, true, true, true, true, true, true, true, true, true, false, false, true, true, false, false, false, false, true, false, false];
        assert(checks@ =~= default_checks());
        ModelSettings {
            name,
            file,
            llama_server_path: String::new(),
            cache_dir: String::new(),
            model_draft: String::new(),
            spec_type: default_spec_type(),
            spec_draft_n_max: default_spec_draft(),
            gpu_layers: default_gpu_layers(),
            cpu_moe: 0,
            threads: 0,
            moe_expert_cache_size: 0,
            ctx_size: default_ctx_size(),
            kv_k: default_kv(),
            kv_v: default_kv(),
            temperature: default_temp(),
            top_k: default_top_k(),
            top_p: default_top_p(),
            min_p: DecimalValue::from_texts("0", "0.00"),
            repeat_penalty: default_penalty(),
            presence_penalty: DecimalValue::from_texts("0", "0.00"),
            batch_size: 2048,
            ubatch_size: 512,
            no_mmap: true,
            flash_attn: default_flash_attn(),
            cache_ram: 0,
            load_mode: String::new(),
            parallel: 1,
            fit: String::from_str("on"),
            extra_args: String::new(),
            enabled: checks,
        }
    }
}

impl Default for ModelSettings {
    fn default() -> (m: Self)
        ensures
            m.is_default_for(Seq::<char>::empty(), Seq::<char>::empty()),
    {
        ModelSettings::named(String::new(), String::new())
    }
}

// ── Top-level config ──

/// The whole configuration: common settings and the per-model list.
#[derive(Debug, Clone, PartialEq)]
pub struct AppConfig {
    pub common: CommonSettings,
    pub models: Vec<ModelSettings>,
}

impl AppConfig {
    /// The default configuration, with the update script under `home`.
    pub fn default_for_home(home: &str) -> (c: Self)
        ensures
            c.common.is_default_for(home@),
            c.models@.len() == 0,
    {
        AppConfig { common: CommonSettings::default_for_home(home), models: Vec::new() }
    }
}

// ── Model file scanner ──

/// A `.gguf` file found in the model directory.
#[derive(Debug, Clone, PartialEq)]
pub struct ModelFileEntry {
    pub file_name: String,
    pub file_path: String,
}

/// The `.gguf` suffix.
pub open spec fn gguf_suffix() -> Seq<char> {
    seq!['.', 'g', 'g', 'u', 'f']
}

/// `name` ends in `.gguf`.
pub open spec fn ends_in_gguf(name: Seq<char>) -> bool {
    name.len() >= 5 && name.subrange(name.len() - 5, name.len() as int) == gguf_suffix()
}

/// A directory entry named `name` has the extension `gguf`: it ends in
/// `.gguf` and has a non-empty stem before it.
pub open spec fn has_gguf_extension(name: Seq<char>) -> bool {
    name.len() > 5 && ends_in_gguf(name)
}

/// `name` without a trailing `.gguf`.
pub open spec fn strip_gguf(name: Seq<char>) -> Seq<char> {
    if ends_in_gguf(name) {
        name.subrange(0, name.len() - 5)
    } else {
        name
    }
}

/// Whether `name` ends in `.gguf`.
pub fn name_ends_in_gguf(name: &str) -> (b: bool)
    ensures
        b == ends_in_gguf(name@),
{
    let n: usize = name.unicode_len();
    if n < 5 {
        return false;
    }
    let b = name.get_char(n - 5) == '.' && name.get_char(n - 4) == 'g' && name.get_char(n - 3)
        == 'g' && name.get_char(n - 2) == 'u' && name.get_char(n - 1) == 'f';
    proof {
        let t = name@.subrange(n - 5, n as int);
        if b {
            assert(t =~= gguf_suffix());
        } else {
            if t == gguf_suffix() {
                assert(t[0] == name@[n - 5]);
                assert(t[1] == name@[n - 4]);
                assert(t[2] == name@[n - 3]);
                assert(t[3] == name@[n - 2]);
                assert(t[4] == name@[n - 1]);
            }
        }
    }
    b
}

/// `name` without a trailing `.gguf` (the alias a new model gets).
pub fn strip_gguf_suffix(name: &str) -> (r: String)
    ensures
        r@ == strip_gguf(name@),
{
    if name_ends_in_gguf(name) {
        let n: usize = name.unicode_len();
        String::from_str(name.substring_char(0, n - 5))
    } else {
        String::from_str(name)
    }
}

/// The names of a list of entries.
pub open spec fn entry_names(entries: Seq<ModelFileEntry>) -> Seq<Seq<char>> {
    entries.map_values(|e: ModelFileEntry| e.file_name@)
}

/// `names` is in ascending order.
pub open spec fn sorted_names(names: Seq<Seq<char>>) -> bool {
    forall|i: int, j: int| 0 <= i < j < names.len() ==> seq_le(#[trigger] names[i], #[trigger] names[j])
}

/// The model files among the directory entries `names` of `dir`: those with
/// the extension `gguf`, sorted by name, each with its path in `dir`.
pub fn select_model_files(dir: &str, names: Vec<String>) -> (entries: Vec<ModelFileEntry>)
    ensures
        entry_names(entries@).to_multiset() == views(names@).filter(|n: Seq<char>| has_gguf_extension(n)).to_multiset(),
        sorted_names(entry_names(entries@)),
        forall|i: int| 0 <= i < entries@.len() ==> (#[trigger] entries@[i]).file_path@ == path_join(dir@, entries@[i].file_name@),
{
    let ghost pred = |n: Seq<char>| has_gguf_extension(n);
    let ghost all = views(names@);
    // keep the `.gguf` files, in insertion-sorted order
    let mut kept: Vec<String> = Vec::new();
    let mut names = names;
    let mut i: usize = 0;
    let total: usize = names.len();
    proof {
        reveal_with_fuel(Seq::filter, 1);
        assert(all.take(0).filter(pred) =~= Seq::<Seq<char>>::empty());
        assert(views(kept@) =~= Seq::<Seq<char>>::empty());
    }
    while names.len() > 0
        invariant
            i + names@.len() == total,
            total == all.len(),
            pred == (|n: Seq<char>| has_gguf_extension(n)),
            views(names@) == all.skip(i as int),
            views(kept@).to_multiset() == all.take(i as int).filter(pred).to_multiset(),
            sorted_names(views(kept@)),
        decreases names@.len(),
    {
        let ghost prev = names@;
        let name = names.remove(0);
        assert(views(prev)[0] == name@);
        assert(all.skip(i as int)[0] == all[i as int]);
        assert(views(names@) =~= all.skip(i + 1)) by {
            assert forall|k: int| 0 <= k < names@.len() implies views(names@)[k] == all.skip(i + 1)[k] by {
                assert(names@[k] == prev[k + 1]);
                assert(views(prev)[k + 1] == all.skip(i as int)[k + 1]);
            }
        }
        let ghost x = name@;
        assert(all.take(i + 1) =~= all.take(i as int).push(all[i as int]));
        proof {
            all.take(i as int).lemma_filter_push(all[i as int], pred);
        }
        if name.as_str().unicode_len() > 5 && name_ends_in_gguf(name.as_str()) {
            let mut pos: usize = 0;
            while pos < kept.len() && !str_lt(name.as_str(), kept[pos].as_str())
                invariant
                    pos <= kept@.len(),
                    forall|k: int| 0 <= k < pos ==> !seq_lt(name@, #[trigger] kept@[k]@),
                decreases kept@.len() - pos,
            {
                pos = pos + 1;
            }
            let ghost before = views(kept@);
            kept.insert(pos, name);
            proof {
                let after = views(kept@);
                assert(after =~= before.insert(pos as int, x));
                lemma_insert_sorted(before, pos as int, x);
                assert(has_gguf_extension(x));
                assert(pred(x));
                assert(all.take(i + 1).filter(pred) == all.take(i as int).filter(pred).push(x));
                vstd::seq_lib::to_multiset_insert(before, pos as int, x);
                vstd::seq_lib::to_multiset_build(all.take(i as int).filter(pred), x);
                assert(after.to_multiset() == before.to_multiset().insert(x));
            }
        } else {
            proof {
                assert(!pred(x));
                assert(all.take(i + 1).filter(pred) == all.take(i as int).filter(pred));
            }
        }
        i = i + 1;
    }
    assert(all.take(total as int) =~= all);
    let mut entries: Vec<ModelFileEntry> = Vec::new();
    let mut k: usize = 0;
    while k < kept.len()
        invariant
            k <= kept@.len(),
            entry_names(entries@) =~= views(kept@).take(k as int),
            forall|j: int| 0 <= j < entries@.len() ==> (#[trigger] entries@[j]).file_path@ == path_join(dir@, entries@[j].file_name@),
        decreases kept@.len() - k,
    {
        let file_name = kept[k].clone();
        let file_path = join_path(dir, file_name.as_str());
        let ghost before = entries@;
        entries.push(ModelFileEntry { file_name, file_path });
        assert(entry_names(entries@) =~= entry_names(before).push(kept@[k as int]@));
        assert(views(kept@).take(k + 1) =~= views(kept@).take(k as int).push(kept@[k as int]@));
        k = k + 1;
    }
    assert(views(kept@).take(k as int) =~= views(kept@));
    entries
}

/// Inserting `x` after every element that does not come after it, and
/// before the first that does, keeps a sorted list sorted.
proof fn lemma_insert_sorted(s: Seq<Seq<char>>, pos: int, x: Seq<char>)
    requires
        sorted_names(s),
        0 <= pos <= s.len(),
        forall|k: int| 0 <= k < pos ==> !seq_lt(x, #[trigger] s[k]),
        pos < s.len() ==> seq_lt(x, s[pos]),
    ensures
        sorted_names(s.insert(pos, x)),
{
    let t = s.insert(pos, x);
    assert forall|a: int, b: int| 0 <= a < b < t.len() implies seq_le(#[trigger] t[a], #[trigger] t[b]) by {
        if a < pos && b < pos {
            assert(t[a] == s[a] && t[b] == s[b]);
        } else if a < pos && b == pos {
            assert(t[a] == s[a] && t[b] == x);
        } else if a < pos {
            assert(t[a] == s[a] && t[b] == s[b - 1]);
        } else if a == pos {
            assert(t[a] == x && t[b] == s[b - 1]);
            // x < s[pos] <= s[b - 1]
            if seq_lt(s[b - 1], x) {
                if b - 1 == pos {
                    lemma_seq_lt_total(x, s[pos]);
                } else {
                    assert(seq_le(s[pos], s[b - 1]));
                    lemma_seq_lt_trans(s[b - 1], x, s[pos]);
                }
            }
        } else {
            assert(t[a] == s[a - 1] && t[b] == s[b - 1]);
        }
    }
}

// ── Derived directories ──

/// The model directory that the server path alone implies:
/// `<parent of server>/../model`.
pub open spec fn spec_model_dir_from_server_path(server_path: Seq<char>) -> Seq<char> {
    path_join(path_join(parent_or_dot(server_path), ".."@), "model"@)
}

/// The model directory: the explicit one when it is set, otherwise the one
/// implied by the server path.
pub open spec fn spec_model_dir_from_common(c: CommonSettings) -> Seq<char> {
    if c.model_dir@.len() > 0 {
        c.model_dir@
    } else {
        spec_model_dir_from_server_path(c.llama_server_path@)
    }
}

/// The cache directory: the explicit one when it is absolute, otherwise
/// `<parent of server>/../cache`.
pub open spec fn spec_cache_dir_from_settings(c: CommonSettings) -> Seq<char> {
    if c.cache_dir@.len() > 0 && is_absolute_path(c.cache_dir@) {
        c.cache_dir@
    } else {
        path_join(path_join(parent_or_dot(c.llama_server_path@), ".."@), "cache"@)
    }
}

/// The cache directory of a model: its own when checked and not empty,
/// otherwise the common one.
pub open spec fn spec_cache_dir_for_model(c: CommonSettings, m: ModelSettings) -> Seq<char> {
    if m.checked(ModelFieldId::CacheDir) && m.cache_dir@.len() > 0 {
        m.cache_dir@
    } else {
        spec_cache_dir_from_settings(c)
    }
}

/// The server binary of a model: its own when checked and not empty,
/// otherwise the common one.
pub open spec fn spec_server_path_for_model(c: CommonSettings, m: ModelSettings) -> Seq<char> {
    if m.checked(ModelFieldId::LlamaServerPath) && m.llama_server_path@.len() > 0 {
        m.llama_server_path@
    } else {
        c.llama_server_path@
    }
}

/// Derives the model directory from the server path alone.
pub fn model_dir_from_server_path(server_path: &str) -> (r: String)
    ensures
        r@ == spec_model_dir_from_server_path(server_path@),
{
    let parent = parent_dir_or_dot(server_path);
    let up = join_path(parent.as_str(), "..");
    join_path(up.as_str(), "model")
}

/// Derives the model directory: the explicit `model_dir` when it is set,
/// else from the server path.
pub fn model_dir_from_common(common: &CommonSettings) -> (r: String)
    ensures
        r@ == spec_model_dir_from_common(*common),
{
    if common.model_dir.as_str().unicode_len() > 0 {
        return common.model_dir.clone();
    }
    model_dir_from_server_path(common.llama_server_path.as_str())
}

/// Derives the cache directory from the common settings.
pub fn cache_dir_from_settings(common: &CommonSettings) -> (r: String)
    ensures
        r@ == spec_cache_dir_from_settings(*common),
{
    if common.cache_dir.as_str().unicode_len() > 0 && is_absolute(common.cache_dir.as_str()) {
        return common.cache_dir.clone();
    }
    let parent = parent_dir_or_dot(common.llama_server_path.as_str());
    let up = join_path(parent.as_str(), "..");
    join_path(up.as_str(), "cache")
}

/// The cache directory used for `model`.
pub fn cache_dir_for_model(common: &CommonSettings, model: &ModelSettings) -> (r: String)
    ensures
        r@ == spec_cache_dir_for_model(*common, *model),
{
    if model.is_checked(ModelFieldId::CacheDir) && model.cache_dir.as_str().unicode_len() > 0 {
        model.cache_dir.clone()
    } else {
        cache_dir_from_settings(common)
    }
}

/// The server binary used for `model`.
pub fn server_path_for_model(common: &CommonSettings, model: &ModelSettings) -> (r: String)
    ensures
        r@ == spec_server_path_for_model(*common, *model),
{
    if model.is_checked(ModelFieldId::LlamaServerPath) && model.llama_server_path.as_str().unicode_len() > 0 {
        model.llama_server_path.clone()
    } else {
        common.llama_server_path.clone()
    }
}

} // verus!
