//! Editing the Configure tab's fields: writing a value into a common or a
//! per-model field, flipping a checkbox, and setting a decimal parameter.

use vstd::prelude::*;
use vstd::string::*;
use crate::fields::{
    is_text_field, same_fields, spec_common_field_get, spec_model_field_enabled, spec_model_field_get,
    spec_common_field_set, spec_model_field_set, spec_model_field_toggled, spec_set_decimal_field,
};
use crate::model::{
    model_field_index, CommonSettings, DecimalValue, ModelFieldId, ModelSettings,
};
use crate::text::{dec, lemma_parse_dec, parse_u16, parse_u32, parse_unsigned};

verus! {

/// Writes `v` into common field `i`.
pub fn common_field_set(c: &mut CommonSettings, i: usize, v: String)
    ensures
        spec_common_field_set(*old(c), i as int, v@, *final(c)),
{
    if i == 0 {
        c.llama_server_path = v;
    } else if i == 1 {
        c.model_dir = v;
    } else if i == 2 {
        c.host = v;
    } else if i == 3 {
        match parse_u16(v.as_str()) {
            Some(n) => {
                c.port = n;
            },
            None => {},
        }
    } else if i == 4 {
        match parse_u16(v.as_str()) {
            Some(n) => {
                c.mid_pane_height = n;
            },
            None => {},
        }
    } else if i == 5 {
        c.update_script_path = v;
    } else if i == 6 {
        c.extra_args = v;
    }
}

/// Flips a field's checkbox.
pub fn model_field_toggle(m: &mut ModelSettings, id: ModelFieldId)
    ensures
        spec_model_field_toggled(*old(m), id, *final(m)),
{
    let i = model_field_index(id);
    let v = m.enabled[i];
    m.enabled[i] = !v;
}

/// Writes the text `v` into a field of `m`.
#[verifier::spinoff_prover]
pub fn model_field_set(m: &mut ModelSettings, id: ModelFieldId, v: String)
    ensures
        spec_model_field_set(*old(m), id, v@, *final(m)),
{
    match id {
        ModelFieldId::LlamaServerPath => {
            m.llama_server_path = v;
        },
        ModelFieldId::Model => {
            m.file = v;
        },
        ModelFieldId::ModelDraft => {
            m.model_draft = v;
        },
        ModelFieldId::Alias => {
            m.name = v;
        },
        ModelFieldId::SpecType => {
            m.spec_type = v;
        },
        ModelFieldId::SpecDraftNMax => {
            match parse_u32(v.as_str()) {
                Some(n) => {
                    m.spec_draft_n_max = n;
                },
                None => {},
            }
        },
        ModelFieldId::CacheDir => {
            m.cache_dir = v;
        },
        ModelFieldId::GpuLayers => {
            m.gpu_layers = v;
        },
        ModelFieldId::CpuMoe => {
            match parse_u32(v.as_str()) {
                Some(n) => {
                    m.cpu_moe = n;
                },
                None => {},
            }
        },
        ModelFieldId::Threads => {
            match parse_u32(v.as_str()) {
                Some(n) => {
                    m.threads = n;
                },
                None => {},
            }
        },
        ModelFieldId::MoeExpertCacheSize => {
            match parse_u32(v.as_str()) {
                Some(n) => {
                    m.moe_expert_cache_size = n;
                },
                None => {},
            }
        },
        ModelFieldId::CtxSize => {
            match parse_u32(v.as_str()) {
                Some(n) => {
                    m.ctx_size = n;
                },
                None => {},
            }
        },
        ModelFieldId::KvK => {
            m.kv_k = v;
        },
        ModelFieldId::KvV => {
            m.kv_v = v;
        },
        ModelFieldId::Temperature => {
            
        },
        ModelFieldId::TopK => {
            match parse_u32(v.as_str()) {
                Some(n) => {
                    m.top_k = n;
                },
                None => {},
            }
        },
        ModelFieldId::TopP => {
            
        },
        ModelFieldId::MinP => {
            
        },
        ModelFieldId::RepeatPenalty => {
            
        },
        ModelFieldId::PresencePenalty => {
            
        },
        ModelFieldId::BatchSize => {
            match parse_u32(v.as_str()) {
                Some(n) => {
                    m.batch_size = n;
                },
                None => {},
            }
        },
        ModelFieldId::UbatchSize => {
            match parse_u32(v.as_str()) {
                Some(n) => {
                    m.ubatch_size = n;
                },
                None => {},
            }
        },
        ModelFieldId::NoMmap => {
            let t = String::from_str("true");
            m.no_mmap = v == t;
        },
        ModelFieldId::FlashAttn => {
            m.flash_attn = v;
        },
        ModelFieldId::CacheRam => {
            match parse_u32(v.as_str()) {
                Some(n) => {
                    m.cache_ram = n;
                },
                None => {},
            }
        },
        ModelFieldId::LoadMode => {
            m.load_mode = v;
        },
        ModelFieldId::Parallel => {
            match parse_u32(v.as_str()) {
                Some(n) => {
                    m.parallel = n;
                },
                None => {},
            }
        },
        ModelFieldId::Fit => {
            m.fit = v;
        },
        ModelFieldId::KvOffload => {
            
        },
        ModelFieldId::Jinja => {
            
        },
        ModelFieldId::ExtraArgs => {
            m.extra_args = v;
        },
    }
}

/// Sets decimal field `id` of `m` to `d`.
#[verifier::spinoff_prover]
pub fn set_decimal_field(m: &mut ModelSettings, id: ModelFieldId, d: DecimalValue)
    ensures
        spec_set_decimal_field(*old(m), id, d, *final(m)),
{
    match id {
        ModelFieldId::Temperature => {
            m.temperature = d;
        },
        ModelFieldId::TopP => {
            m.top_p = d;
        },
        ModelFieldId::MinP => {
            m.min_p = d;
        },
        ModelFieldId::RepeatPenalty => {
            m.repeat_penalty = d;
        },
        ModelFieldId::PresencePenalty => {
            m.presence_penalty = d;
        },
        _ => {},
    }
}


/// Flipping a checkbox twice restores the model: the same checkboxes, and
/// every other field as it was.
#[verifier::spinoff_prover]
pub proof fn law_toggle_twice_restores(m: ModelSettings, id: ModelFieldId, once: ModelSettings, twice: ModelSettings)
    requires
        spec_model_field_toggled(m, id, once),
        spec_model_field_toggled(once, id, twice),
    ensures
        twice.enabled@ == m.enabled@,
        twice == (ModelSettings { enabled: twice.enabled, ..m }),
{
    assert(twice.enabled@ =~= m.enabled@);
}


/// Flipping a checkbox flips that checkbox and leaves every field's text and
/// every other checkbox as it was.
#[verifier::spinoff_prover]
pub proof fn law_toggle_flips_one_checkbox(m: ModelSettings, id: ModelFieldId, r: ModelSettings)
    requires
        spec_model_field_toggled(m, id, r),
    ensures
        spec_model_field_enabled(r, id) == !spec_model_field_enabled(m, id),
        forall|other: ModelFieldId| other != id ==> spec_model_field_enabled(r, other) == #[trigger] spec_model_field_enabled(m, other),
        forall|other: ModelFieldId| spec_model_field_get(r, other) == #[trigger] spec_model_field_get(m, other),
{
}


/// What is written into a text field is what the field then shows.
#[verifier::spinoff_prover]
pub proof fn law_text_field_reads_back(m: ModelSettings, id: ModelFieldId, v: Seq<char>, r: ModelSettings)
    requires
        is_text_field(id),
        spec_model_field_set(m, id, v, r),
    ensures
        spec_model_field_get(r, id) == v,
{
}

/// Writing back the text a field shows changes nothing that any field
/// shows, nor any checkbox: entering the editor and confirming without a
/// change is harmless.
#[verifier::spinoff_prover]
pub proof fn law_model_field_write_back(m: ModelSettings, id: ModelFieldId, r: ModelSettings)
    requires
        spec_model_field_set(m, id, spec_model_field_get(m, id), r),
    ensures
        same_fields(m, r),
{
    lemma_parse_dec(m.spec_draft_n_max as nat, 4294967295);
    lemma_parse_dec(m.cpu_moe as nat, 4294967295);
    lemma_parse_dec(m.threads as nat, 4294967295);
    lemma_parse_dec(m.moe_expert_cache_size as nat, 4294967295);
    lemma_parse_dec(m.ctx_size as nat, 4294967295);
    lemma_parse_dec(m.top_k as nat, 4294967295);
    lemma_parse_dec(m.batch_size as nat, 4294967295);
    lemma_parse_dec(m.ubatch_size as nat, 4294967295);
    lemma_parse_dec(m.cache_ram as nat, 4294967295);
    lemma_parse_dec(m.parallel as nat, 4294967295);
    reveal_strlit("true");
    reveal_strlit("false");
    match id {
        ModelFieldId::LlamaServerPath => {
            assert(same_fields(m, r));
        },
        ModelFieldId::Model => {
            assert(same_fields(m, r));
        },
        ModelFieldId::ModelDraft => {
            assert(same_fields(m, r));
        },
        ModelFieldId::Alias => {
            assert(same_fields(m, r));
        },
        ModelFieldId::SpecType => {
            assert(same_fields(m, r));
        },
        ModelFieldId::SpecDraftNMax => {
            assert(same_fields(m, r));
        },
        ModelFieldId::CacheDir => {
            assert(same_fields(m, r));
        },
        ModelFieldId::GpuLayers => {
            assert(same_fields(m, r));
        },
        ModelFieldId::CpuMoe => {
            assert(same_fields(m, r));
        },
        ModelFieldId::Threads => {
            assert(same_fields(m, r));
        },
        ModelFieldId::MoeExpertCacheSize => {
            assert(same_fields(m, r));
        },
        ModelFieldId::CtxSize => {
            assert(same_fields(m, r));
        },
        ModelFieldId::KvK => {
            assert(same_fields(m, r));
        },
        ModelFieldId::KvV => {
            assert(same_fields(m, r));
        },
        ModelFieldId::Temperature => {
            assert(same_fields(m, r));
        },
        ModelFieldId::TopK => {
            assert(same_fields(m, r));
        },
        ModelFieldId::TopP => {
            assert(same_fields(m, r));
        },
        ModelFieldId::MinP => {
            assert(same_fields(m, r));
        },
        ModelFieldId::RepeatPenalty => {
            assert(same_fields(m, r));
        },
        ModelFieldId::PresencePenalty => {
            assert(same_fields(m, r));
        },
        ModelFieldId::BatchSize => {
            assert(same_fields(m, r));
        },
        ModelFieldId::UbatchSize => {
            assert(same_fields(m, r));
        },
        ModelFieldId::NoMmap => {
            assert(same_fields(m, r));
        },
        ModelFieldId::FlashAttn => {
            assert(same_fields(m, r));
        },
        ModelFieldId::CacheRam => {
            assert(same_fields(m, r));
        },
        ModelFieldId::LoadMode => {
            assert(same_fields(m, r));
        },
        ModelFieldId::Parallel => {
            assert(same_fields(m, r));
        },
        ModelFieldId::Fit => {
            assert(same_fields(m, r));
        },
        ModelFieldId::KvOffload => {
            assert(same_fields(m, r));
        },
        ModelFieldId::Jinja => {
            assert(same_fields(m, r));
        },
        ModelFieldId::ExtraArgs => {
            assert(same_fields(m, r));
        },
    }

}

/// What is written into a common text field is what it then shows, and
/// writing back what a common field shows changes no common field.
#[verifier::spinoff_prover]
pub proof fn law_common_field_write_back(c: CommonSettings, i: int, r: CommonSettings)
    requires
        0 <= i < 7,
        spec_common_field_set(c, i, spec_common_field_get(c, i), r),
    ensures
        forall|j: int| 0 <= j < 7 ==> spec_common_field_get(r, j) == #[trigger] spec_common_field_get(c, j),
{
    lemma_parse_dec(c.port as nat, 65535);
    lemma_parse_dec(c.mid_pane_height as nat, 65535);
}

/// The per-model fields that hold a `u32`.
pub open spec fn is_integer_field(id: ModelFieldId) -> bool {
    match id {
        ModelFieldId::SpecDraftNMax => true,
        ModelFieldId::CpuMoe => true,
        ModelFieldId::Threads => true,
        ModelFieldId::MoeExpertCacheSize => true,
        ModelFieldId::CtxSize => true,
        ModelFieldId::TopK => true,
        ModelFieldId::BatchSize => true,
        ModelFieldId::UbatchSize => true,
        ModelFieldId::CacheRam => true,
        ModelFieldId::Parallel => true,
        _ => false,
    }
}

/// Writing a number into an integer field makes the field hold it, zero
/// included, and leaves every other field and every checkbox as it was;
/// text that is not a `u32` changes nothing.
#[verifier::spinoff_prover]
pub proof fn law_integer_field_takes_any_number(m: ModelSettings, id: ModelFieldId, v: Seq<char>, r: ModelSettings)
    requires
        is_integer_field(id),
        spec_model_field_set(m, id, v, r),
    ensures
        parse_unsigned(v, 4294967295) matches Some(n) ==> spec_model_field_get(r, id) == dec(n),
        parse_unsigned(v, 4294967295) is None ==> r == m,
        forall|other: ModelFieldId| other != id ==> spec_model_field_get(r, other) == #[trigger] spec_model_field_get(m, other),
        forall|other: ModelFieldId| spec_model_field_enabled(r, other) == #[trigger] spec_model_field_enabled(m, other),
{
}

/// Writing a number into the port or the pane height makes it hold that
/// number, zero included; text that is not a `u16` changes nothing.
#[verifier::spinoff_prover]
pub proof fn law_common_number_takes_any_number(c: CommonSettings, i: int, v: Seq<char>, r: CommonSettings)
    requires
        i == 3 || i == 4,
        spec_common_field_set(c, i, v, r),
    ensures
        parse_unsigned(v, 65535) matches Some(n) ==> spec_common_field_get(r, i) == dec(n),
        parse_unsigned(v, 65535) is None ==> r == c,
        forall|j: int| 0 <= j < 7 && j != i ==> spec_common_field_get(r, j) == #[trigger] spec_common_field_get(c, j),
{
}

} // verus!
