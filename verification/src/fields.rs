//! The editable fields of the Configure tab: the common settings by index,
//! and the per-model fields with their labels, checkboxes, getters and
//! setters.

use vstd::prelude::*;
use vstd::string::*;
use crate::model::{
    field_index, CommonSettings, DecimalValue, ModelFieldId, ModelSettings, MODEL_FIELD_COUNT,
};
use crate::text::{dec, parse_unsigned, u64_to_string};

verus! {

// ── Common settings ──

/// How many common settings the Configure tab lists.
pub const COMMON_FIELD_COUNT: usize = 7;

/// The label of common field `i`.
pub open spec fn spec_common_field_label(i: int) -> Seq<char> {
    if i == 0 {
        "llama_server_path (master)"@
    } else if i == 1 {
        "model_path"@
    } else if i == 2 {
        "host"@
    } else if i == 3 {
        "port"@
    } else if i == 4 {
        "mid_pane_height"@
    } else if i == 5 {
        "update_script_path"@
    } else {
        "extra_args"@
    }
}

/// The label of common field `i`.
pub fn common_field_label(i: usize) -> (s: &'static str)
    requires
        i < COMMON_FIELD_COUNT,
    ensures
        s@ == spec_common_field_label(i as int),
{
    if i == 0 {
        "llama_server_path (master)"
    } else if i == 1 {
        "model_path"
    } else if i == 2 {
        "host"
    } else if i == 3 {
        "port"
    } else if i == 4 {
        "mid_pane_height"
    } else if i == 5 {
        "update_script_path"
    } else {
        "extra_args"
    }
}

/// The text of common field `i`.
pub open spec fn spec_common_field_get(c: CommonSettings, i: int) -> Seq<char> {
    if i == 0 {
        c.llama_server_path@
    } else if i == 1 {
        c.model_dir@
    } else if i == 2 {
        c.host@
    } else if i == 3 {
        dec(c.port as nat)
    } else if i == 4 {
        dec(c.mid_pane_height as nat)
    } else if i == 5 {
        c.update_script_path@
    } else {
        c.extra_args@
    }
}

/// `r` is `c` after writing `v` into common field `i`: text fields take
/// `v`; the numeric fields take it only when it parses as a `u16`; an index
/// past the list changes nothing.
#[verifier::inline]
pub open spec fn spec_common_field_set(c: CommonSettings, i: int, v: Seq<char>, r: CommonSettings) -> bool {
    &&& (i == 0 ==> r == CommonSettings { llama_server_path: r.llama_server_path, ..c } && r.llama_server_path@ == v)
    &&& (i == 1 ==> r == CommonSettings { model_dir: r.model_dir, ..c } && r.model_dir@ == v)
    &&& (i == 2 ==> r == CommonSettings { host: r.host, ..c } && r.host@ == v)
    &&& (i == 3 ==> (parse_unsigned(v, 65535) matches Some(n) ==> r == CommonSettings { port: n as u16, ..c })
        && (parse_unsigned(v, 65535) is None ==> r == c))
    &&& (i == 4 ==> (parse_unsigned(v, 65535) matches Some(n) ==> r == CommonSettings { mid_pane_height: n as u16, ..c })
        && (parse_unsigned(v, 65535) is None ==> r == c))
    &&& (i == 5 ==> r == CommonSettings { update_script_path: r.update_script_path, ..c } && r.update_script_path@ == v)
    &&& (i == 6 ==> r == CommonSettings { extra_args: r.extra_args, ..c } && r.extra_args@ == v)
    &&& (i < 0 || i >= 7 ==> r == c)
}

/// The text of common field `i`.
pub fn common_field_get(c: &CommonSettings, i: usize) -> (s: String)
    requires
        i < COMMON_FIELD_COUNT,
    ensures
        s@ == spec_common_field_get(*c, i as int),
{
    if i == 0 {
        c.llama_server_path.clone()
    } else if i == 1 {
        c.model_dir.clone()
    } else if i == 2 {
        c.host.clone()
    } else if i == 3 {
        u64_to_string(c.port as u64)
    } else if i == 4 {
        u64_to_string(c.mid_pane_height as u64)
    } else if i == 5 {
        c.update_script_path.clone()
    } else {
        c.extra_args.clone()
    }
}

// ── Per-model fields ──



/// A per-model field as the Configure tab shows it: its label, which field
/// it edits, whether it has a checkbox, and whether an empty value falls
/// back to the common setting.
#[derive(Debug, Clone, Copy, PartialEq, Eq)]
pub struct ModelField {
    pub label: &'static str,
    pub id: ModelFieldId,
    pub has_checkbox: bool,
    pub has_fallback: bool,
}

impl ModelField {
    /// A field with a checkbox and no fallback.
    pub fn new(label: &'static str, id: ModelFieldId) -> (f: Self)
        ensures
            f.label == label,
            f.id == id,
            f.has_checkbox,
            !f.has_fallback,
    {
        ModelField { label, id, has_checkbox: true, has_fallback: false }
    }

    /// The same field, showing the common setting when its value is empty.
    pub fn with_fallback(self) -> (f: Self)
        ensures
            f == (ModelField { has_fallback: true, ..self }),
    {
        ModelField { has_fallback: true, ..self }
    }
}

/// The field at position `i` of the list.
pub open spec fn spec_model_field_id(i: int) -> ModelFieldId {
    if i == 0 {
        ModelFieldId::LlamaServerPath
    } else if i == 1 {
        ModelFieldId::Model
    } else if i == 2 {
        ModelFieldId::ModelDraft
    } else if i == 3 {
        ModelFieldId::Alias
    } else if i == 4 {
        ModelFieldId::SpecType
    } else if i == 5 {
        ModelFieldId::SpecDraftNMax
    } else if i == 6 {
        ModelFieldId::CacheDir
    } else if i == 7 {
        ModelFieldId::GpuLayers
    } else if i == 8 {
        ModelFieldId::CpuMoe
    } else if i == 9 {
        ModelFieldId::Threads
    } else if i == 10 {
        ModelFieldId::MoeExpertCacheSize
    } else if i == 11 {
        ModelFieldId::CtxSize
    } else if i == 12 {
        ModelFieldId::KvK
    } else if i == 13 {
        ModelFieldId::KvV
    } else if i == 14 {
        ModelFieldId::Temperature
    } else if i == 15 {
        ModelFieldId::TopK
    } else if i == 16 {
        ModelFieldId::TopP
    } else if i == 17 {
        ModelFieldId::MinP
    } else if i == 18 {
        ModelFieldId::RepeatPenalty
    } else if i == 19 {
        ModelFieldId::PresencePenalty
    } else if i == 20 {
        ModelFieldId::BatchSize
    } else if i == 21 {
        ModelFieldId::UbatchSize
    } else if i == 22 {
        ModelFieldId::NoMmap
    } else if i == 23 {
        ModelFieldId::FlashAttn
    } else if i == 24 {
        ModelFieldId::CacheRam
    } else if i == 25 {
        ModelFieldId::LoadMode
    } else if i == 26 {
        ModelFieldId::Parallel
    } else if i == 27 {
        ModelFieldId::Fit
    } else if i == 28 {
        ModelFieldId::KvOffload
    } else if i == 29 {
        ModelFieldId::Jinja
    } else {
        ModelFieldId::ExtraArgs
    }
}

/// The label of a field.
pub open spec fn spec_model_field_label(id: ModelFieldId) -> Seq<char> {
    match id {
        ModelFieldId::LlamaServerPath => "llama_server_path"@,
        ModelFieldId::Model => "model"@,
        ModelFieldId::ModelDraft => "model_draft"@,
        ModelFieldId::Alias => "alias"@,
        ModelFieldId::SpecType => "spec_type"@,
        ModelFieldId::SpecDraftNMax => "spec_draft_n_max"@,
        ModelFieldId::CacheDir => "cache_dir"@,
        ModelFieldId::GpuLayers => "gpu_layers"@,
        ModelFieldId::CpuMoe => "cpu_moe"@,
        ModelFieldId::Threads => "threads"@,
        ModelFieldId::MoeExpertCacheSize => "moe_expert_cache_size"@,
        ModelFieldId::CtxSize => "ctx_size"@,
        ModelFieldId::KvK => "kv_k"@,
        ModelFieldId::KvV => "kv_v"@,
        ModelFieldId::Temperature => "temperature"@,
        ModelFieldId::TopK => "top_k"@,
        ModelFieldId::TopP => "top_p"@,
        ModelFieldId::MinP => "min_p"@,
        ModelFieldId::RepeatPenalty => "repeat_penalty"@,
        ModelFieldId::PresencePenalty => "presence_penalty"@,
        ModelFieldId::BatchSize => "batch_size"@,
        ModelFieldId::UbatchSize => "ubatch_size"@,
        ModelFieldId::NoMmap => "no_mmap"@,
        ModelFieldId::FlashAttn => "flash_attn"@,
        ModelFieldId::CacheRam => "cache_ram"@,
        ModelFieldId::LoadMode => "load_mode"@,
        ModelFieldId::Parallel => "parallel"@,
        ModelFieldId::Fit => "fit"@,
        ModelFieldId::KvOffload => "kv_offload"@,
        ModelFieldId::Jinja => "jinja"@,
        ModelFieldId::ExtraArgs => "extra_args"@,
    }
}

/// The field at position `i` of the Configure tab's list, if there is one.
pub fn model_field(i: usize) -> (r: Option<ModelField>)
    ensures
        match r {
            Some(f) => {
                &&& i < MODEL_FIELD_COUNT
                &&& f.id == spec_model_field_id(i as int)
                &&& f.label@ == spec_model_field_label(f.id)
                &&& f.has_checkbox
                &&& f.has_fallback == (f.id == ModelFieldId::LlamaServerPath)
            },
            None => i >= MODEL_FIELD_COUNT,
        },
{
    if i == 0 {
        Some(ModelField::new("llama_server_path", ModelFieldId::LlamaServerPath).with_fallback())
    } else if i == 1 {
        Some(ModelField::new("model", ModelFieldId::Model))
    } else if i == 2 {
        Some(ModelField::new("model_draft", ModelFieldId::ModelDraft))
    } else if i == 3 {
        Some(ModelField::new("alias", ModelFieldId::Alias))
    } else if i == 4 {
        Some(ModelField::new("spec_type", ModelFieldId::SpecType))
    } else if i == 5 {
        Some(ModelField::new("spec_draft_n_max", ModelFieldId::SpecDraftNMax))
    } else if i == 6 {
        Some(ModelField::new("cache_dir", ModelFieldId::CacheDir))
    } else if i == 7 {
        Some(ModelField::new("gpu_layers", ModelFieldId::GpuLayers))
    } else if i == 8 {
        Some(ModelField::new("cpu_moe", ModelFieldId::CpuMoe))
    } else if i == 9 {
        Some(ModelField::new("threads", ModelFieldId::Threads))
    } else if i == 10 {
        Some(ModelField::new("moe_expert_cache_size", ModelFieldId::MoeExpertCacheSize))
    } else if i == 11 {
        Some(ModelField::new("ctx_size", ModelFieldId::CtxSize))
    } else if i == 12 {
        Some(ModelField::new("kv_k", ModelFieldId::KvK))
    } else if i == 13 {
        Some(ModelField::new("kv_v", ModelFieldId::KvV))
    } else if i == 14 {
        Some(ModelField::new("temperature", ModelFieldId::Temperature))
    } else if i == 15 {
        Some(ModelField::new("top_k", ModelFieldId::TopK))
    } else if i == 16 {
        Some(ModelField::new("top_p", ModelFieldId::TopP))
    } else if i == 17 {
        Some(ModelField::new("min_p", ModelFieldId::MinP))
    } else if i == 18 {
        Some(ModelField::new("repeat_penalty", ModelFieldId::RepeatPenalty))
    } else if i == 19 {
        Some(ModelField::new("presence_penalty", ModelFieldId::PresencePenalty))
    } else if i == 20 {
        Some(ModelField::new("batch_size", ModelFieldId::BatchSize))
    } else if i == 21 {
        Some(ModelField::new("ubatch_size", ModelFieldId::UbatchSize))
    } else if i == 22 {
        Some(ModelField::new("no_mmap", ModelFieldId::NoMmap))
    } else if i == 23 {
        Some(ModelField::new("flash_attn", ModelFieldId::FlashAttn))
    } else if i == 24 {
        Some(ModelField::new("cache_ram", ModelFieldId::CacheRam))
    } else if i == 25 {
        Some(ModelField::new("load_mode", ModelFieldId::LoadMode))
    } else if i == 26 {
        Some(ModelField::new("parallel", ModelFieldId::Parallel))
    } else if i == 27 {
        Some(ModelField::new("fit", ModelFieldId::Fit))
    } else if i == 28 {
        Some(ModelField::new("kv_offload", ModelFieldId::KvOffload))
    } else if i == 29 {
        Some(ModelField::new("jinja", ModelFieldId::Jinja))
    } else if i == 30 {
        Some(ModelField::new("extra_args", ModelFieldId::ExtraArgs))
    } else {
        None
    }
}

/// The text a field shows for model `m`.
pub open spec fn spec_model_field_get(m: ModelSettings, id: ModelFieldId) -> Seq<char> {
    match id {
        ModelFieldId::LlamaServerPath => m.llama_server_path@,
        ModelFieldId::Model => m.file@,
        ModelFieldId::ModelDraft => m.model_draft@,
        ModelFieldId::Alias => m.name@,
        ModelFieldId::SpecType => m.spec_type@,
        ModelFieldId::SpecDraftNMax => dec(m.spec_draft_n_max as nat),
        ModelFieldId::CacheDir => m.cache_dir@,
        ModelFieldId::GpuLayers => m.gpu_layers@,
        ModelFieldId::CpuMoe => dec(m.cpu_moe as nat),
        ModelFieldId::Threads => dec(m.threads as nat),
        ModelFieldId::MoeExpertCacheSize => dec(m.moe_expert_cache_size as nat),
        ModelFieldId::CtxSize => dec(m.ctx_size as nat),
        ModelFieldId::KvK => m.kv_k@,
        ModelFieldId::KvV => m.kv_v@,
        ModelFieldId::Temperature => m.temperature.shown@,
        ModelFieldId::TopK => dec(m.top_k as nat),
        ModelFieldId::TopP => m.top_p.shown@,
        ModelFieldId::MinP => m.min_p.two_places@,
        ModelFieldId::RepeatPenalty => m.repeat_penalty.two_places@,
        ModelFieldId::PresencePenalty => m.presence_penalty.two_places@,
        ModelFieldId::BatchSize => dec(m.batch_size as nat),
        ModelFieldId::UbatchSize => dec(m.ubatch_size as nat),
        ModelFieldId::NoMmap => if m.no_mmap { "true"@ } else { "false"@ },
        ModelFieldId::FlashAttn => m.flash_attn@,
        ModelFieldId::CacheRam => dec(m.cache_ram as nat),
        ModelFieldId::LoadMode => m.load_mode@,
        ModelFieldId::Parallel => dec(m.parallel as nat),
        ModelFieldId::Fit => m.fit@,
        ModelFieldId::KvOffload => Seq::<char>::empty(),
        ModelFieldId::Jinja => Seq::<char>::empty(),
        ModelFieldId::ExtraArgs => m.extra_args@,
    }
}

/// Whether a field's checkbox is set for model `m`.
pub open spec fn spec_model_field_enabled(m: ModelSettings, id: ModelFieldId) -> bool {
    m.checked(id)
}

/// `r` is `m` with the checkbox of field `id` flipped.
#[verifier::inline]
pub open spec fn spec_model_field_toggled(m: ModelSettings, id: ModelFieldId, r: ModelSettings) -> bool {
    &&& r.enabled@ == m.enabled@.update(field_index(id), !m.checked(id))
    &&& r == (ModelSettings { enabled: r.enabled, ..m })
}

/// The fields that hold a decimal sampling parameter.
pub open spec fn is_decimal_field(id: ModelFieldId) -> bool {
    match id {
        ModelFieldId::Temperature => true,
        ModelFieldId::TopP => true,
        ModelFieldId::MinP => true,
        ModelFieldId::RepeatPenalty => true,
        ModelFieldId::PresencePenalty => true,
        _ => false,
    }
}

/// `r` is `m` after writing the text `v` into a field: text fields take
/// `v`; integer fields take it only when it parses as a `u32`; `no_mmap`
/// becomes whether `v` is `true`; the flag-only fields and the decimal
/// fields (set through `set_decimal_field`) are unchanged.
#[verifier::inline]
pub open spec fn spec_model_field_set(m: ModelSettings, id: ModelFieldId, v: Seq<char>, r: ModelSettings) -> bool {
    &&& (id == ModelFieldId::LlamaServerPath ==> r == ModelSettings { llama_server_path: r.llama_server_path, ..m } && r.llama_server_path@ == v)
    &&& (id == ModelFieldId::Model ==> r == ModelSettings { file: r.file, ..m } && r.file@ == v)
    &&& (id == ModelFieldId::ModelDraft ==> r == ModelSettings { model_draft: r.model_draft, ..m } && r.model_draft@ == v)
    &&& (id == ModelFieldId::Alias ==> r == ModelSettings { name: r.name, ..m } && r.name@ == v)
    &&& (id == ModelFieldId::SpecType ==> r == ModelSettings { spec_type: r.spec_type, ..m } && r.spec_type@ == v)
    &&& (id == ModelFieldId::SpecDraftNMax ==> (parse_unsigned(v, 4294967295) matches Some(n) ==> r == ModelSettings { spec_draft_n_max: n as u32, ..m }) && (parse_unsigned(v, 4294967295) is None ==> r == m))
    &&& (id == ModelFieldId::CacheDir ==> r == ModelSettings { cache_dir: r.cache_dir, ..m } && r.cache_dir@ == v)
    &&& (id == ModelFieldId::GpuLayers ==> r == ModelSettings { gpu_layers: r.gpu_layers, ..m } && r.gpu_layers@ == v)
    &&& (id == ModelFieldId::CpuMoe ==> (parse_unsigned(v, 4294967295) matches Some(n) ==> r == ModelSettings { cpu_moe: n as u32, ..m }) && (parse_unsigned(v, 4294967295) is None ==> r == m))
    &&& (id == ModelFieldId::Threads ==> (parse_unsigned(v, 4294967295) matches Some(n) ==> r == ModelSettings { threads: n as u32, ..m }) && (parse_unsigned(v, 4294967295) is None ==> r == m))
    &&& (id == ModelFieldId::MoeExpertCacheSize ==> (parse_unsigned(v, 4294967295) matches Some(n) ==> r == ModelSettings { moe_expert_cache_size: n as u32, ..m }) && (parse_unsigned(v, 4294967295) is None ==> r == m))
    &&& (id == ModelFieldId::CtxSize ==> (parse_unsigned(v, 4294967295) matches Some(n) ==> r == ModelSettings { ctx_size: n as u32, ..m }) && (parse_unsigned(v, 4294967295) is None ==> r == m))
    &&& (id == ModelFieldId::KvK ==> r == ModelSettings { kv_k: r.kv_k, ..m } && r.kv_k@ == v)
    &&& (id == ModelFieldId::KvV ==> r == ModelSettings { kv_v: r.kv_v, ..m } && r.kv_v@ == v)
    &&& (id == ModelFieldId::Temperature ==> r == m)
    &&& (id == ModelFieldId::TopK ==> (parse_unsigned(v, 4294967295) matches Some(n) ==> r == ModelSettings { top_k: n as u32, ..m }) && (parse_unsigned(v, 4294967295) is None ==> r == m))
    &&& (id == ModelFieldId::TopP ==> r == m)
    &&& (id == ModelFieldId::MinP ==> r == m)
    &&& (id == ModelFieldId::RepeatPenalty ==> r == m)
    &&& (id == ModelFieldId::PresencePenalty ==> r == m)
    &&& (id == ModelFieldId::BatchSize ==> (parse_unsigned(v, 4294967295) matches Some(n) ==> r == ModelSettings { batch_size: n as u32, ..m }) && (parse_unsigned(v, 4294967295) is None ==> r == m))
    &&& (id == ModelFieldId::UbatchSize ==> (parse_unsigned(v, 4294967295) matches Some(n) ==> r == ModelSettings { ubatch_size: n as u32, ..m }) && (parse_unsigned(v, 4294967295) is None ==> r == m))
    &&& (id == ModelFieldId::NoMmap ==> r == ModelSettings { no_mmap: v == "true"@, ..m })
    &&& (id == ModelFieldId::FlashAttn ==> r == ModelSettings { flash_attn: r.flash_attn, ..m } && r.flash_attn@ == v)
    &&& (id == ModelFieldId::CacheRam ==> (parse_unsigned(v, 4294967295) matches Some(n) ==> r == ModelSettings { cache_ram: n as u32, ..m }) && (parse_unsigned(v, 4294967295) is None ==> r == m))
    &&& (id == ModelFieldId::LoadMode ==> r == ModelSettings { load_mode: r.load_mode, ..m } && r.load_mode@ == v)
    &&& (id == ModelFieldId::Parallel ==> (parse_unsigned(v, 4294967295) matches Some(n) ==> r == ModelSettings { parallel: n as u32, ..m }) && (parse_unsigned(v, 4294967295) is None ==> r == m))
    &&& (id == ModelFieldId::Fit ==> r == ModelSettings { fit: r.fit, ..m } && r.fit@ == v)
    &&& (id == ModelFieldId::KvOffload ==> r == m)
    &&& (id == ModelFieldId::Jinja ==> r == m)
    &&& (id == ModelFieldId::ExtraArgs ==> r == ModelSettings { extra_args: r.extra_args, ..m } && r.extra_args@ == v)
}

/// `r` is `m` with decimal field `id` set to `d`; other fields change nothing.
#[verifier::inline]
pub open spec fn spec_set_decimal_field(m: ModelSettings, id: ModelFieldId, d: DecimalValue, r: ModelSettings) -> bool {
    match id {
        ModelFieldId::Temperature => r == ModelSettings { temperature: d, ..m },
        ModelFieldId::TopP => r == ModelSettings { top_p: d, ..m },
        ModelFieldId::MinP => r == ModelSettings { min_p: d, ..m },
        ModelFieldId::RepeatPenalty => r == ModelSettings { repeat_penalty: d, ..m },
        ModelFieldId::PresencePenalty => r == ModelSettings { presence_penalty: d, ..m },
        _ => r == m,
    }
}

/// The fields that hold free text.
pub open spec fn is_text_field(id: ModelFieldId) -> bool {
    match id {
        ModelFieldId::LlamaServerPath => true,
        ModelFieldId::Model => true,
        ModelFieldId::ModelDraft => true,
        ModelFieldId::Alias => true,
        ModelFieldId::SpecType => true,
        ModelFieldId::CacheDir => true,
        ModelFieldId::GpuLayers => true,
        ModelFieldId::KvK => true,
        ModelFieldId::KvV => true,
        ModelFieldId::FlashAttn => true,
        ModelFieldId::LoadMode => true,
        ModelFieldId::Fit => true,
        ModelFieldId::ExtraArgs => true,
        _ => false,
    }
}

/// `a` and `b` show the same text and the same checkbox in every field.
pub open spec fn same_fields(a: ModelSettings, b: ModelSettings) -> bool {
    forall|id: ModelFieldId|
        spec_model_field_get(a, id) == #[trigger] spec_model_field_get(b, id)
            && spec_model_field_enabled(a, id) == spec_model_field_enabled(b, id)
}

/// The text a field shows for `m`.
pub fn model_field_get(m: &ModelSettings, id: ModelFieldId) -> (s: String)
    ensures
        s@ == spec_model_field_get(*m, id),
{
    match id {
        ModelFieldId::LlamaServerPath => m.llama_server_path.clone(),
        ModelFieldId::Model => m.file.clone(),
        ModelFieldId::ModelDraft => m.model_draft.clone(),
        ModelFieldId::Alias => m.name.clone(),
        ModelFieldId::SpecType => m.spec_type.clone(),
        ModelFieldId::SpecDraftNMax => u64_to_string(m.spec_draft_n_max as u64),
        ModelFieldId::CacheDir => m.cache_dir.clone(),
        ModelFieldId::GpuLayers => m.gpu_layers.clone(),
        ModelFieldId::CpuMoe => u64_to_string(m.cpu_moe as u64),
        ModelFieldId::Threads => u64_to_string(m.threads as u64),
        ModelFieldId::MoeExpertCacheSize => u64_to_string(m.moe_expert_cache_size as u64),
        ModelFieldId::CtxSize => u64_to_string(m.ctx_size as u64),
        ModelFieldId::KvK => m.kv_k.clone(),
        ModelFieldId::KvV => m.kv_v.clone(),
        ModelFieldId::Temperature => m.temperature.shown.clone(),
        ModelFieldId::TopK => u64_to_string(m.top_k as u64),
        ModelFieldId::TopP => m.top_p.shown.clone(),
        ModelFieldId::MinP => m.min_p.two_places.clone(),
        ModelFieldId::RepeatPenalty => m.repeat_penalty.two_places.clone(),
        ModelFieldId::PresencePenalty => m.presence_penalty.two_places.clone(),
        ModelFieldId::BatchSize => u64_to_string(m.batch_size as u64),
        ModelFieldId::UbatchSize => u64_to_string(m.ubatch_size as u64),
        ModelFieldId::NoMmap => if m.no_mmap {
            String::from_str("true")
        } else {
            String::from_str("false")
        },
        ModelFieldId::FlashAttn => m.flash_attn.clone(),
        ModelFieldId::CacheRam => u64_to_string(m.cache_ram as u64),
        ModelFieldId::LoadMode => m.load_mode.clone(),
        ModelFieldId::Parallel => u64_to_string(m.parallel as u64),
        ModelFieldId::Fit => m.fit.clone(),
        ModelFieldId::KvOffload => String::new(),
        ModelFieldId::Jinja => String::new(),
        ModelFieldId::ExtraArgs => m.extra_args.clone(),
    }
}

/// Whether a field's checkbox is set for `m`.
pub fn model_field_enabled(m: &ModelSettings, id: ModelFieldId) -> (b: bool)
    ensures
        b == spec_model_field_enabled(*m, id),
{
    m.is_checked(id)
}

/// Whether a field holds a decimal sampling parameter.
pub fn model_field_is_decimal(id: ModelFieldId) -> (b: bool)
    ensures
        b == is_decimal_field(id),
{
    match id {
        ModelFieldId::Temperature => true,
        ModelFieldId::TopP => true,
        ModelFieldId::MinP => true,
        ModelFieldId::RepeatPenalty => true,
        ModelFieldId::PresencePenalty => true,
        _ => false,
    }
}

/// What a row of the per-model settings shows as the value: the field's
/// text, or the common server path when the text is empty and the field
/// falls back to it.
pub open spec fn spec_field_value_shown(c: CommonSettings, m: ModelSettings, f: ModelField) -> Seq<char> {
    if spec_model_field_get(m, f.id).len() == 0 && f.has_fallback {
        c.llama_server_path@
    } else {
        spec_model_field_get(m, f.id)
    }
}

/// The value a row of the per-model settings shows.
pub fn field_value_shown(c: &CommonSettings, m: &ModelSettings, f: ModelField) -> (s: String)
    ensures
        s@ == spec_field_value_shown(*c, *m, f),
{
    let v = model_field_get(m, f.id);
    if v.as_str().unicode_len() == 0 && f.has_fallback {
        c.llama_server_path.clone()
    } else {
        v
    }
}

/// The checkbox mark of a row: `[x] ` when set, `[ ] ` when not.
pub fn checkbox_mark(checked: bool) -> (s: &'static str)
    ensures
        s@ == (if checked {
            "[x] "@
        } else {
            "[ ] "@
        }),
{
    if checked {
        "[x] "
    } else {
        "[ ] "
    }
}

} // verus!
