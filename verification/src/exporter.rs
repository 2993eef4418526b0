//! Wiring the parsed device samples into the registry: the fixed metric
//! set of the exporter, registration at startup, and the per-scrape update.

use vstd::prelude::*;

use crate::num::i64_token_val;
use crate::registry::Metric;
use crate::registry::Registry;
use crate::render::render;
use crate::render::render_registry;
use crate::sample::DeviceSample;
use crate::sample::ScrapeError;
use crate::sample::output_lines;
use crate::sample::parse_output;
use crate::sample::power_draw_value;
use crate::sample::pstate_val;
use crate::sample::row_err_matches;
use crate::sample::sample_matches;
use crate::sample::sample_wf;
use crate::sample::wf_row;
use crate::tokens::row_tokens;
use crate::value::dec_value;
use crate::value::GaugeValue;

verus! {

/// Name of the exporter's metric number `mid`, in registration order.
pub open spec fn gpu_metric_name(mid: int) -> Seq<char> {
    if mid == 0 {
        "nvidia_smi_gpu_info"@
    } else if mid == 1 {
        "nvidia_smi_gpu_total_memory"@
    } else if mid == 2 {
        "nvidia_smi_gpu_used_memory"@
    } else if mid == 3 {
        "nvidia_smi_gpu_utilization_memory"@
    } else if mid == 4 {
        "nvidia_smi_gpu_utilization"@
    } else if mid == 5 {
        "nvidia_smi_gpu_cuda_specification"@
    } else if mid == 6 {
        "nvidia_smi_gpu_temperature"@
    } else if mid == 7 {
        "nvidia_smi_gpu_fan_speed"@
    } else if mid == 8 {
        "nvidia_smi_gpu_performance_state"@
    } else if mid == 9 {
        "nvidia_smi_gpu_power_limit"@
    } else if mid == 10 {
        "nvidia_smi_gpu_power_draw"@
    } else if mid == 11 {
        "nvidia_smi_gpu_clock_graphics"@
    } else if mid == 12 {
        "nvidia_smi_gpu_clock_max_graphics"@
    } else if mid == 13 {
        "nvidia_smi_gpu_clock_memory"@
    } else if mid == 14 {
        "nvidia_smi_gpu_clock_max_memory"@
    } else {
        "nvidia_smi_gpu_clock_video"@
    }
}

/// The number of metrics the exporter serves.
pub const GPU_METRICS: usize = 16;

/// The fixed shape of the exporter's registry: sixteen metrics under the
/// fixed names, the identity metric labeled by index, name, driver version
/// and firmware version, every other metric by device index alone.
pub open spec fn gpu_metrics_shape(r: Registry) -> bool {
    &&& r.metrics@.len() == GPU_METRICS
    &&& forall|mid: int|
        0 <= mid < GPU_METRICS ==> (#[trigger] r.metrics@[mid]).name@ == gpu_metric_name(mid)
    &&& r.metrics@[0].label_names.deep_view() == seq![
        "index"@,
        "name"@,
        "driver_version"@,
        "vbios_version"@,
    ]
    &&& forall|mid: int|
        1 <= mid < GPU_METRICS ==> (#[trigger] r.metrics@[mid]).label_names.deep_view() == seq![
            "index"@,
        ]
}

/// The label combination a device sample writes under metric `mid`.
pub open spec fn sample_key(s: DeviceSample, mid: int) -> Seq<Seq<char>> {
    if mid == 0 {
        seq![s.index@, s.name@, s.driver_version@, s.vbios_version@]
    } else {
        seq![s.index@]
    }
}

/// The value a device sample writes under metric `mid`; the identity
/// metric always reads one.
pub open spec fn sample_metric_val(s: DeviceSample, mid: int) -> GaugeValue {
    if mid == 0 {
        GaugeValue { neg: false, mantissa: 1, scale: 0 }
    } else if mid == 1 {
        GaugeValue::spec_from_i64(s.memory_total)
    } else if mid == 2 {
        GaugeValue::spec_from_i64(s.memory_used)
    } else if mid == 3 {
        GaugeValue::spec_from_i64(s.utilization_memory)
    } else if mid == 4 {
        GaugeValue::spec_from_i64(s.utilization_gpu)
    } else if mid == 5 {
        s.compute_cap
    } else if mid == 6 {
        GaugeValue::spec_from_i64(s.temperature)
    } else if mid == 7 {
        GaugeValue::spec_from_i64(s.fan_speed)
    } else if mid == 8 {
        GaugeValue::spec_from_i64(s.performance_state)
    } else if mid == 9 {
        s.power_limit
    } else if mid == 10 {
        s.power_draw
    } else if mid == 11 {
        GaugeValue::spec_from_i64(s.clock_graphics)
    } else if mid == 12 {
        GaugeValue::spec_from_i64(s.clock_max_graphics)
    } else if mid == 13 {
        GaugeValue::spec_from_i64(s.clock_memory)
    } else if mid == 14 {
        GaugeValue::spec_from_i64(s.clock_max_memory)
    } else {
        GaugeValue::spec_from_i64(s.clock_video)
    }
}

/// How one update changes one metric: the written combination now carries
/// the written value (appended when new), every other combination keeps
/// its presence, value and position, and the metric's identity stands.
pub open spec fn metric_updated(om: Metric, tm: Metric, key: Seq<Seq<char>>, v: GaugeValue) -> bool {
    &&& tm.name@ == om.name@
    &&& tm.help@ == om.help@
    &&& tm.label_names.deep_view() == om.label_names.deep_view()
    &&& tm.has_series(key)
    &&& tm.series_val(key) == v
    &&& forall|l2: Seq<Seq<char>>|
        l2 != key ==> (((#[trigger] tm.has_series(l2)) <==> om.has_series(l2)) && (om.has_series(l2)
            ==> tm.series_val(l2) == om.series_val(l2)))
    &&& tm.series@.len() == om.series@.len() + (if om.has_series(key) {
        0int
    } else {
        1int
    })
    &&& forall|j: int|
        0 <= j < om.series@.len() ==> (#[trigger] tm.series@[j]).labels.deep_view()
            == om.series@[j].labels.deep_view()
}

/// A one-element label tuple holding the sample's device index.
fn index_label_of(s: &DeviceSample) -> (r: Vec<String>)
    ensures
        r.deep_view() == seq![s.index@],
        r@.len() == 1,
{
    let mut v: Vec<String> = Vec::new();
    v.push(s.index.clone());
    proof {
        assert(v.deep_view() =~= seq![s.index@]);
    }
    v
}

/// The label-name tuple shared by all per-device metrics.
fn index_label_names() -> (r: Vec<String>)
    ensures
        r.deep_view() == seq!["index"@],
        r@.len() == 1,
{
    let mut v: Vec<String> = Vec::new();
    v.push(String::from_str("index"));
    proof {
        assert(v.deep_view() =~= seq!["index"@]);
    }
    v
}

/// The label-name tuple of the identity metric.
fn info_label_names() -> (r: Vec<String>)
    ensures
        r.deep_view() == seq!["index"@, "name"@, "driver_version"@, "vbios_version"@],
        r@.len() == 4,
{
    let mut v: Vec<String> = Vec::new();
    v.push(String::from_str("index"));
    v.push(String::from_str("name"));
    v.push(String::from_str("driver_version"));
    v.push(String::from_str("vbios_version"));
    proof {
        assert(v.deep_view() =~= seq!["index"@, "name"@, "driver_version"@, "vbios_version"@]);
    }
    v
}

/// Builds the exporter's registry: one gauge metric per queried attribute,
/// registered once, with no series until the first scrape.
#[verifier::rlimit(80)]
pub fn new_gpu_registry() -> (r: Registry)
    ensures
        r.wf(),
        gpu_metrics_shape(r),
        forall|mid: int| 0 <= mid < GPU_METRICS ==> (#[trigger] r.metrics@[mid]).series@.len() == 0,
{
    proof {
        reveal_strlit("nvidia_smi_gpu_info");
        reveal_strlit("nvidia_smi_gpu_total_memory");
        reveal_strlit("nvidia_smi_gpu_used_memory");
        reveal_strlit("nvidia_smi_gpu_utilization_memory");
        reveal_strlit("nvidia_smi_gpu_utilization");
        reveal_strlit("nvidia_smi_gpu_cuda_specification");
        reveal_strlit("nvidia_smi_gpu_temperature");
        reveal_strlit("nvidia_smi_gpu_fan_speed");
        reveal_strlit("nvidia_smi_gpu_performance_state");
        reveal_strlit("nvidia_smi_gpu_power_limit");
        reveal_strlit("nvidia_smi_gpu_power_draw");
        reveal_strlit("nvidia_smi_gpu_clock_graphics");
        reveal_strlit("nvidia_smi_gpu_clock_max_graphics");
        reveal_strlit("nvidia_smi_gpu_clock_memory");
        reveal_strlit("nvidia_smi_gpu_clock_max_memory");
        reveal_strlit("nvidia_smi_gpu_clock_video");
    }
    let mut reg = Registry::new();
    let _ = reg.register(
        String::from_str("nvidia_smi_gpu_info"),
        String::from_str("GPU common information."),
        info_label_names(),
    );
    proof {
        assert(reg.metrics@[0].name@ == "nvidia_smi_gpu_info"@);
    }
    proof {
        assert(!reg.has_metric("nvidia_smi_gpu_total_memory"@)) by {
            if reg.has_metric("nvidia_smi_gpu_total_memory"@) {
                let i = reg.metric_at("nvidia_smi_gpu_total_memory"@);
                assert(0 <= i < reg.metrics@.len() && reg.metrics@[i].name@ == "nvidia_smi_gpu_total_memory"@);
                assert(i == 0);
                if i == 0 {
                    assert(("nvidia_smi_gpu_info"@).len() == 19);
                    assert(("nvidia_smi_gpu_total_memory"@).len() == 27);
                    assert(false);
                }
            }
        }
    }
    let _ = reg.register(
        String::from_str("nvidia_smi_gpu_total_memory"),
        String::from_str("Total installed GPU memory."),
        index_label_names(),
    );
    proof {
        assert(reg.metrics@[0].name@ == "nvidia_smi_gpu_info"@);
        assert(reg.metrics@[1].name@ == "nvidia_smi_gpu_total_memory"@);
    }
    proof {
        assert(!reg.has_metric("nvidia_smi_gpu_used_memory"@)) by {
            if reg.has_metric("nvidia_smi_gpu_used_memory"@) {
                let i = reg.metric_at("nvidia_smi_gpu_used_memory"@);
                assert(0 <= i < reg.metrics@.len() && reg.metrics@[i].name@ == "nvidia_smi_gpu_used_memory"@);
                assert(i == 0 || i == 1);
                if i == 0 {
                    assert(("nvidia_smi_gpu_info"@).len() == 19);
                    assert(("nvidia_smi_gpu_used_memory"@).len() == 26);
                    assert(false);
                }
                if i == 1 {
                    assert(("nvidia_smi_gpu_total_memory"@).len() == 27);
                    assert(("nvidia_smi_gpu_used_memory"@).len() == 26);
                    assert(false);
                }
            }
        }
    }
    let _ = reg.register(
        String::from_str("nvidia_smi_gpu_used_memory"),
        String::from_str("Total memory allocated by active contexts."),
        index_label_names(),
    );
    proof {
        assert(reg.metrics@[0].name@ == "nvidia_smi_gpu_info"@);
        assert(reg.metrics@[1].name@ == "nvidia_smi_gpu_total_memory"@);
        assert(reg.metrics@[2].name@ == "nvidia_smi_gpu_used_memory"@);
    }
    proof {
        assert(!reg.has_metric("nvidia_smi_gpu_utilization_memory"@)) by {
            if reg.has_metric("nvidia_smi_gpu_utilization_memory"@) {
                let i = reg.metric_at("nvidia_smi_gpu_utilization_memory"@);
                assert(0 <= i < reg.metrics@.len() && reg.metrics@[i].name@ == "nvidia_smi_gpu_utilization_memory"@);
                assert(i == 0 || i == 1 || i == 2);
                if i == 0 {
                    assert(("nvidia_smi_gpu_info"@).len() == 19);
                    assert(("nvidia_smi_gpu_utilization_memory"@).len() == 33);
                    assert(false);
                }
                if i == 1 {
                    assert(("nvidia_smi_gpu_total_memory"@).len() == 27);
                    assert(("nvidia_smi_gpu_utilization_memory"@).len() == 33);
                    assert(false);
                }
                if i == 2 {
                    assert(("nvidia_smi_gpu_used_memory"@).len() == 26);
                    assert(("nvidia_smi_gpu_utilization_memory"@).len() == 33);
                    assert(false);
                }
            }
        }
    }
    let _ = reg.register(
        String::from_str("nvidia_smi_gpu_utilization_memory"),
        String::from_str("Percent of time over the past sample period during which global (device) memory was being read or written."),
        index_label_names(),
    );
    proof {
        assert(reg.metrics@[0].name@ == "nvidia_smi_gpu_info"@);
        assert(reg.metrics@[1].name@ == "nvidia_smi_gpu_total_memory"@);
        assert(reg.metrics@[2].name@ == "nvidia_smi_gpu_used_memory"@);
        assert(reg.metrics@[3].name@ == "nvidia_smi_gpu_utilization_memory"@);
    }
    proof {
        assert(!reg.has_metric("nvidia_smi_gpu_utilization"@)) by {
            if reg.has_metric("nvidia_smi_gpu_utilization"@) {
                let i = reg.metric_at("nvidia_smi_gpu_utilization"@);
                assert(0 <= i < reg.metrics@.len() && reg.metrics@[i].name@ == "nvidia_smi_gpu_utilization"@);
                assert(i == 0 || i == 1 || i == 2 || i == 3);
                if i == 0 {
                    assert(("nvidia_smi_gpu_info"@).len() == 19);
                    assert(("nvidia_smi_gpu_utilization"@).len() == 26);
                    assert(false);
                }
                if i == 1 {
                    assert(("nvidia_smi_gpu_total_memory"@).len() == 27);
                    assert(("nvidia_smi_gpu_utilization"@).len() == 26);
                    assert(false);
                }
                if i == 2 {
                    assert(("nvidia_smi_gpu_used_memory"@)[16] == 's');
                    assert(("nvidia_smi_gpu_utilization"@)[16] == 't');
                    assert(false);
                }
                if i == 3 {
                    assert(("nvidia_smi_gpu_utilization_memory"@).len() == 33);
                    assert(("nvidia_smi_gpu_utilization"@).len() == 26);
                    assert(false);
                }
            }
        }
    }
    let _ = reg.register(
        String::from_str("nvidia_smi_gpu_utilization"),
        String::from_str("Percent of time over the past sample period during which one or more kernels was executing on the GPU."),
        index_label_names(),
    );
    proof {
        assert(reg.metrics@[0].name@ == "nvidia_smi_gpu_info"@);
        assert(reg.metrics@[1].name@ == "nvidia_smi_gpu_total_memory"@);
        assert(reg.metrics@[2].name@ == "nvidia_smi_gpu_used_memory"@);
        assert(reg.metrics@[3].name@ == "nvidia_smi_gpu_utilization_memory"@);
        assert(reg.metrics@[4].name@ == "nvidia_smi_gpu_utilization"@);
    }
    proof {
        assert(!reg.has_metric("nvidia_smi_gpu_cuda_specification"@)) by {
            if reg.has_metric("nvidia_smi_gpu_cuda_specification"@) {
                let i = reg.metric_at("nvidia_smi_gpu_cuda_specification"@);
                assert(0 <= i < reg.metrics@.len() && reg.metrics@[i].name@ == "nvidia_smi_gpu_cuda_specification"@);
                assert(i == 0 || i == 1 || i == 2 || i == 3 || i == 4);
                if i == 0 {
                    assert(("nvidia_smi_gpu_info"@).len() == 19);
                    assert(("nvidia_smi_gpu_cuda_specification"@).len() == 33);
                    assert(false);
                }
                if i == 1 {
                    assert(("nvidia_smi_gpu_total_memory"@).len() == 27);
                    assert(("nvidia_smi_gpu_cuda_specification"@).len() == 33);
                    assert(false);
                }
                if i == 2 {
                    assert(("nvidia_smi_gpu_used_memory"@).len() == 26);
                    assert(("nvidia_smi_gpu_cuda_specification"@).len() == 33);
                    assert(false);
                }
                if i == 3 {
                    assert(("nvidia_smi_gpu_utilization_memory"@)[15] == 'u');
                    assert(("nvidia_smi_gpu_cuda_specification"@)[15] == 'c');
                    assert(false);
                }
                if i == 4 {
                    assert(("nvidia_smi_gpu_utilization"@).len() == 26);
                    assert(("nvidia_smi_gpu_cuda_specification"@).len() == 33);
                    assert(false);
                }
            }
        }
    }
    let _ = reg.register(
        String::from_str("nvidia_smi_gpu_cuda_specification"),
        String::from_str("The CUDA Compute Capability."),
        index_label_names(),
    );
    proof {
        assert(reg.metrics@[0].name@ == "nvidia_smi_gpu_info"@);
        assert(reg.metrics@[1].name@ == "nvidia_smi_gpu_total_memory"@);
        assert(reg.metrics@[2].name@ == "nvidia_smi_gpu_used_memory"@);
        assert(reg.metrics@[3].name@ == "nvidia_smi_gpu_utilization_memory"@);
        assert(reg.metrics@[4].name@ == "nvidia_smi_gpu_utilization"@);
        assert(reg.metrics@[5].name@ == "nvidia_smi_gpu_cuda_specification"@);
    }
    proof {
        assert(!reg.has_metric("nvidia_smi_gpu_temperature"@)) by {
            if reg.has_metric("nvidia_smi_gpu_temperature"@) {
                let i = reg.metric_at("nvidia_smi_gpu_temperature"@);
                assert(0 <= i < reg.metrics@.len() && reg.metrics@[i].name@ == "nvidia_smi_gpu_temperature"@);
                assert(i == 0 || i == 1 || i == 2 || i == 3 || i == 4 || i == 5);
                if i == 0 {
                    assert(("nvidia_smi_gpu_info"@).len() == 19);
                    assert(("nvidia_smi_gpu_temperature"@).len() == 26);
                    assert(false);
                }
                if i == 1 {
                    assert(("nvidia_smi_gpu_total_memory"@).len() == 27);
                    assert(("nvidia_smi_gpu_temperature"@).len() == 26);
                    assert(false);
                }
                if i == 2 {
                    assert(("nvidia_smi_gpu_used_memory"@)[15] == 'u');
                    assert(("nvidia_smi_gpu_temperature"@)[15] == 't');
                    assert(false);
                }
                if i == 3 {
                    assert(("nvidia_smi_gpu_utilization_memory"@).len() == 33);
                    assert(("nvidia_smi_gpu_temperature"@).len() == 26);
                    assert(false);
                }
                if i == 4 {
                    assert(("nvidia_smi_gpu_utilization"@)[15] == 'u');
                    assert(("nvidia_smi_gpu_temperature"@)[15] == 't');
                    assert(false);
                }
                if i == 5 {
                    assert(("nvidia_smi_gpu_cuda_specification"@).len() == 33);
                    assert(("nvidia_smi_gpu_temperature"@).len() == 26);
                    assert(false);
                }
            }
        }
    }
    let _ = reg.register(
        String::from_str("nvidia_smi_gpu_temperature"),
        String::from_str("Core GPU temperature. in degrees C."),
        index_label_names(),
    );
    proof {
        assert(reg.metrics@[0].name@ == "nvidia_smi_gpu_info"@);
        assert(reg.metrics@[1].name@ == "nvidia_smi_gpu_total_memory"@);
        assert(reg.metrics@[2].name@ == "nvidia_smi_gpu_used_memory"@);
        assert(reg.metrics@[3].name@ == "nvidia_smi_gpu_utilization_memory"@);
        assert(reg.metrics@[4].name@ == "nvidia_smi_gpu_utilization"@);
        assert(reg.metrics@[5].name@ == "nvidia_smi_gpu_cuda_specification"@);
        assert(reg.metrics@[6].name@ == "nvidia_smi_gpu_temperature"@);
    }
    proof {
        assert(!reg.has_metric("nvidia_smi_gpu_fan_speed"@)) by {
            if reg.has_metric("nvidia_smi_gpu_fan_speed"@) {
                let i = reg.metric_at("nvidia_smi_gpu_fan_speed"@);
                assert(0 <= i < reg.metrics@.len() && reg.metrics@[i].name@ == "nvidia_smi_gpu_fan_speed"@);
                assert(i == 0 || i == 1 || i == 2 || i == 3 || i == 4 || i == 5 || i == 6);
                if i == 0 {
                    assert(("nvidia_smi_gpu_info"@).len() == 19);
                    assert(("nvidia_smi_gpu_fan_speed"@).len() == 24);
                    assert(false);
                }
                if i == 1 {
                    assert(("nvidia_smi_gpu_total_memory"@).len() == 27);
                    assert(("nvidia_smi_gpu_fan_speed"@).len() == 24);
                    assert(false);
                }
                if i == 2 {
                    assert(("nvidia_smi_gpu_used_memory"@).len() == 26);
                    assert(("nvidia_smi_gpu_fan_speed"@).len() == 24);
                    assert(false);
                }
                if i == 3 {
                    assert(("nvidia_smi_gpu_utilization_memory"@).len() == 33);
                    assert(("nvidia_smi_gpu_fan_speed"@).len() == 24);
                    assert(false);
                }
                if i == 4 {
                    assert(("nvidia_smi_gpu_utilization"@).len() == 26);
                    assert(("nvidia_smi_gpu_fan_speed"@).len() == 24);
                    assert(false);
                }
                if i == 5 {
                    assert(("nvidia_smi_gpu_cuda_specification"@).len() == 33);
                    assert(("nvidia_smi_gpu_fan_speed"@).len() == 24);
                    assert(false);
                }
                if i == 6 {
                    assert(("nvidia_smi_gpu_temperature"@).len() == 26);
                    assert(("nvidia_smi_gpu_fan_speed"@).len() == 24);
                    assert(false);
                }
            }
        }
    }
    let _ = reg.register(
        String::from_str("nvidia_smi_gpu_fan_speed"),
        String::from_str("The fan speed value is the percent of the product's maximum noise tolerance fan speed that the device's fan is currently intended to run at."),
        index_label_names(),
    );
    proof {
        assert(reg.metrics@[0].name@ == "nvidia_smi_gpu_info"@);
        assert(reg.metrics@[1].name@ == "nvidia_smi_gpu_total_memory"@);
        assert(reg.metrics@[2].name@ == "nvidia_smi_gpu_used_memory"@);
        assert(reg.metrics@[3].name@ == "nvidia_smi_gpu_utilization_memory"@);
        assert(reg.metrics@[4].name@ == "nvidia_smi_gpu_utilization"@);
        assert(reg.metrics@[5].name@ == "nvidia_smi_gpu_cuda_specification"@);
        assert(reg.metrics@[6].name@ == "nvidia_smi_gpu_temperature"@);
        assert(reg.metrics@[7].name@ == "nvidia_smi_gpu_fan_speed"@);
    }
    proof {
        assert(!reg.has_metric("nvidia_smi_gpu_performance_state"@)) by {
            if reg.has_metric("nvidia_smi_gpu_performance_state"@) {
                let i = reg.metric_at("nvidia_smi_gpu_performance_state"@);
                assert(0 <= i < reg.metrics@.len() && reg.metrics@[i].name@ == "nvidia_smi_gpu_performance_state"@);
                assert(i == 0 || i == 1 || i == 2 || i == 3 || i == 4 || i == 5 || i == 6 || i == 7);
                if i == 0 {
                    assert(("nvidia_smi_gpu_info"@).len() == 19);
                    assert(("nvidia_smi_gpu_performance_state"@).len() == 32);
                    assert(false);
                }
                if i == 1 {
                    assert(("nvidia_smi_gpu_total_memory"@).len() == 27);
                    assert(("nvidia_smi_gpu_performance_state"@).len() == 32);
                    assert(false);
                }
                if i == 2 {
                    assert(("nvidia_smi_gpu_used_memory"@).len() == 26);
                    assert(("nvidia_smi_gpu_performance_state"@).len() == 32);
                    assert(false);
                }
                if i == 3 {
                    assert(("nvidia_smi_gpu_utilization_memory"@).len() == 33);
                    assert(("nvidia_smi_gpu_performance_state"@).len() == 32);
                    assert(false);
                }
                if i == 4 {
                    assert(("nvidia_smi_gpu_utilization"@).len() == 26);
                    assert(("nvidia_smi_gpu_performance_state"@).len() == 32);
                    assert(false);
                }
                if i == 5 {
                    assert(("nvidia_smi_gpu_cuda_specification"@).len() == 33);
                    assert(("nvidia_smi_gpu_performance_state"@).len() == 32);
                    assert(false);
                }
                if i == 6 {
                    assert(("nvidia_smi_gpu_temperature"@).len() == 26);
                    assert(("nvidia_smi_gpu_performance_state"@).len() == 32);
                    assert(false);
                }
                if i == 7 {
                    assert(("nvidia_smi_gpu_fan_speed"@).len() == 24);
                    assert(("nvidia_smi_gpu_performance_state"@).len() == 32);
                    assert(false);
                }
            }
        }
    }
    let _ = reg.register(
        String::from_str("nvidia_smi_gpu_performance_state"),
        String::from_str("The current performance state for the GPU. States range from P0 (maximum performance) to P12 (minimum performance)."),
        index_label_names(),
    );
    proof {
        assert(reg.metrics@[0].name@ == "nvidia_smi_gpu_info"@);
        assert(reg.metrics@[1].name@ == "nvidia_smi_gpu_total_memory"@);
        assert(reg.metrics@[2].name@ == "nvidia_smi_gpu_used_memory"@);
        assert(reg.metrics@[3].name@ == "nvidia_smi_gpu_utilization_memory"@);
        assert(reg.metrics@[4].name@ == "nvidia_smi_gpu_utilization"@);
        assert(reg.metrics@[5].name@ == "nvidia_smi_gpu_cuda_specification"@);
        assert(reg.metrics@[6].name@ == "nvidia_smi_gpu_temperature"@);
        assert(reg.metrics@[7].name@ == "nvidia_smi_gpu_fan_speed"@);
        assert(reg.metrics@[8].name@ == "nvidia_smi_gpu_performance_state"@);
    }
    proof {
        assert(!reg.has_metric("nvidia_smi_gpu_power_limit"@)) by {
            if reg.has_metric("nvidia_smi_gpu_power_limit"@) {
                let i = reg.metric_at("nvidia_smi_gpu_power_limit"@);
                assert(0 <= i < reg.metrics@.len() && reg.metrics@[i].name@ == "nvidia_smi_gpu_power_limit"@);
                assert(i == 0 || i == 1 || i == 2 || i == 3 || i == 4 || i == 5 || i == 6 || i == 7 || i == 8);
                if i == 0 {
                    assert(("nvidia_smi_gpu_info"@).len() == 19);
                    assert(("nvidia_smi_gpu_power_limit"@).len() == 26);
                    assert(false);
                }
                if i == 1 {
                    assert(("nvidia_smi_gpu_total_memory"@).len() == 27);
                    assert(("nvidia_smi_gpu_power_limit"@).len() == 26);
                    assert(false);
                }
                if i == 2 {
                    assert(("nvidia_smi_gpu_used_memory"@)[15] == 'u');
                    assert(("nvidia_smi_gpu_power_limit"@)[15] == 'p');
                    assert(false);
                }
                if i == 3 {
                    assert(("nvidia_smi_gpu_utilization_memory"@).len() == 33);
                    assert(("nvidia_smi_gpu_power_limit"@).len() == 26);
                    assert(false);
                }
                if i == 4 {
                    assert(("nvidia_smi_gpu_utilization"@)[15] == 'u');
                    assert(("nvidia_smi_gpu_power_limit"@)[15] == 'p');
                    assert(false);
                }
                if i == 5 {
                    assert(("nvidia_smi_gpu_cuda_specification"@).len() == 33);
                    assert(("nvidia_smi_gpu_power_limit"@).len() == 26);
                    assert(false);
                }
                if i == 6 {
                    assert(("nvidia_smi_gpu_temperature"@)[15] == 't');
                    assert(("nvidia_smi_gpu_power_limit"@)[15] == 'p');
                    assert(false);
                }
                if i == 7 {
                    assert(("nvidia_smi_gpu_fan_speed"@).len() == 24);
                    assert(("nvidia_smi_gpu_power_limit"@).len() == 26);
                    assert(false);
                }
                if i == 8 {
                    assert(("nvidia_smi_gpu_performance_state"@).len() == 32);
                    assert(("nvidia_smi_gpu_power_limit"@).len() == 26);
                    assert(false);
                }
            }
        }
    }
    let _ = reg.register(
        String::from_str("nvidia_smi_gpu_power_limit"),
        String::from_str("The software power limit in watts."),
        index_label_names(),
    );
    proof {
        assert(reg.metrics@[0].name@ == "nvidia_smi_gpu_info"@);
        assert(reg.metrics@[1].name@ == "nvidia_smi_gpu_total_memory"@);
        assert(reg.metrics@[2].name@ == "nvidia_smi_gpu_used_memory"@);
        assert(reg.metrics@[3].name@ == "nvidia_smi_gpu_utilization_memory"@);
        assert(reg.metrics@[4].name@ == "nvidia_smi_gpu_utilization"@);
        assert(reg.metrics@[5].name@ == "nvidia_smi_gpu_cuda_specification"@);
        assert(reg.metrics@[6].name@ == "nvidia_smi_gpu_temperature"@);
        assert(reg.metrics@[7].name@ == "nvidia_smi_gpu_fan_speed"@);
        assert(reg.metrics@[8].name@ == "nvidia_smi_gpu_performance_state"@);
        assert(reg.metrics@[9].name@ == "nvidia_smi_gpu_power_limit"@);
    }
    proof {
        assert(!reg.has_metric("nvidia_smi_gpu_power_draw"@)) by {
            if reg.has_metric("nvidia_smi_gpu_power_draw"@) {
                let i = reg.metric_at("nvidia_smi_gpu_power_draw"@);
                assert(0 <= i < reg.metrics@.len() && reg.metrics@[i].name@ == "nvidia_smi_gpu_power_draw"@);
                assert(i == 0 || i == 1 || i == 2 || i == 3 || i == 4 || i == 5 || i == 6 || i == 7 || i == 8 || i == 9);
                if i == 0 {
                    assert(("nvidia_smi_gpu_info"@).len() == 19);
                    assert(("nvidia_smi_gpu_power_draw"@).len() == 25);
                    assert(false);
                }
                if i == 1 {
                    assert(("nvidia_smi_gpu_total_memory"@).len() == 27);
                    assert(("nvidia_smi_gpu_power_draw"@).len() == 25);
                    assert(false);
                }
                if i == 2 {
                    assert(("nvidia_smi_gpu_used_memory"@).len() == 26);
                    assert(("nvidia_smi_gpu_power_draw"@).len() == 25);
                    assert(false);
                }
                if i == 3 {
                    assert(("nvidia_smi_gpu_utilization_memory"@).len() == 33);
                    assert(("nvidia_smi_gpu_power_draw"@).len() == 25);
                    assert(false);
                }
                if i == 4 {
                    assert(("nvidia_smi_gpu_utilization"@).len() == 26);
                    assert(("nvidia_smi_gpu_power_draw"@).len() == 25);
                    assert(false);
                }
                if i == 5 {
                    assert(("nvidia_smi_gpu_cuda_specification"@).len() == 33);
                    assert(("nvidia_smi_gpu_power_draw"@).len() == 25);
                    assert(false);
                }
                if i == 6 {
                    assert(("nvidia_smi_gpu_temperature"@).len() == 26);
                    assert(("nvidia_smi_gpu_power_draw"@).len() == 25);
                    assert(false);
                }
                if i == 7 {
                    assert(("nvidia_smi_gpu_fan_speed"@).len() == 24);
                    assert(("nvidia_smi_gpu_power_draw"@).len() == 25);
                    assert(false);
                }
                if i == 8 {
                    assert(("nvidia_smi_gpu_performance_state"@).len() == 32);
                    assert(("nvidia_smi_gpu_power_draw"@).len() == 25);
                    assert(false);
                }
                if i == 9 {
                    assert(("nvidia_smi_gpu_power_limit"@).len() == 26);
                    assert(("nvidia_smi_gpu_power_draw"@).len() == 25);
                    assert(false);
                }
            }
        }
    }
    let _ = reg.register(
        String::from_str("nvidia_smi_gpu_power_draw"),
        String::from_str("The last measured power draw for the entire board, in watts. Only available if power management is supported. This reading is accurate to within +/- 5 watts."),
        index_label_names(),
    );
    proof {
        assert(reg.metrics@[0].name@ == "nvidia_smi_gpu_info"@);
        assert(reg.metrics@[1].name@ == "nvidia_smi_gpu_total_memory"@);
        assert(reg.metrics@[2].name@ == "nvidia_smi_gpu_used_memory"@);
        assert(reg.metrics@[3].name@ == "nvidia_smi_gpu_utilization_memory"@);
        assert(reg.metrics@[4].name@ == "nvidia_smi_gpu_utilization"@);
        assert(reg.metrics@[5].name@ == "nvidia_smi_gpu_cuda_specification"@);
        assert(reg.metrics@[6].name@ == "nvidia_smi_gpu_temperature"@);
        assert(reg.metrics@[7].name@ == "nvidia_smi_gpu_fan_speed"@);
        assert(reg.metrics@[8].name@ == "nvidia_smi_gpu_performance_state"@);
        assert(reg.metrics@[9].name@ == "nvidia_smi_gpu_power_limit"@);
        assert(reg.metrics@[10].name@ == "nvidia_smi_gpu_power_draw"@);
    }
    proof {
        assert(!reg.has_metric("nvidia_smi_gpu_clock_graphics"@)) by {
            if reg.has_metric("nvidia_smi_gpu_clock_graphics"@) {
                let i = reg.metric_at("nvidia_smi_gpu_clock_graphics"@);
                assert(0 <= i < reg.metrics@.len() && reg.metrics@[i].name@ == "nvidia_smi_gpu_clock_graphics"@);
                assert(i == 0 || i == 1 || i == 2 || i == 3 || i == 4 || i == 5 || i == 6 || i == 7 || i == 8 || i == 9 || i == 10);
                if i == 0 {
                    assert(("nvidia_smi_gpu_info"@).len() == 19);
                    assert(("nvidia_smi_gpu_clock_graphics"@).len() == 29);
                    assert(false);
                }
                if i == 1 {
                    assert(("nvidia_smi_gpu_total_memory"@).len() == 27);
                    assert(("nvidia_smi_gpu_clock_graphics"@).len() == 29);
                    assert(false);
                }
                if i == 2 {
                    assert(("nvidia_smi_gpu_used_memory"@).len() == 26);
                    assert(("nvidia_smi_gpu_clock_graphics"@).len() == 29);
                    assert(false);
                }
                if i == 3 {
                    assert(("nvidia_smi_gpu_utilization_memory"@).len() == 33);
                    assert(("nvidia_smi_gpu_clock_graphics"@).len() == 29);
                    assert(false);
                }
                if i == 4 {
                    assert(("nvidia_smi_gpu_utilization"@).len() == 26);
                    assert(("nvidia_smi_gpu_clock_graphics"@).len() == 29);
                    assert(false);
                }
                if i == 5 {
                    assert(("nvidia_smi_gpu_cuda_specification"@).len() == 33);
                    assert(("nvidia_smi_gpu_clock_graphics"@).len() == 29);
                    assert(false);
                }
                if i == 6 {
                    assert(("nvidia_smi_gpu_temperature"@).len() == 26);
                    assert(("nvidia_smi_gpu_clock_graphics"@).len() == 29);
                    assert(false);
                }
                if i == 7 {
                    assert(("nvidia_smi_gpu_fan_speed"@).len() == 24);
                    assert(("nvidia_smi_gpu_clock_graphics"@).len() == 29);
                    assert(false);
                }
                if i == 8 {
                    assert(("nvidia_smi_gpu_performance_state"@).len() == 32);
                    assert(("nvidia_smi_gpu_clock_graphics"@).len() == 29);
                    assert(false);
                }
                if i == 9 {
                    assert(("nvidia_smi_gpu_power_limit"@).len() == 26);
                    assert(("nvidia_smi_gpu_clock_graphics"@).len() == 29);
                    assert(false);
                }
                if i == 10 {
                    assert(("nvidia_smi_gpu_power_draw"@).len() == 25);
                    assert(("nvidia_smi_gpu_clock_graphics"@).len() == 29);
                    assert(false);
                }
            }
        }
    }
    let _ = reg.register(
        String::from_str("nvidia_smi_gpu_clock_graphics"),
        String::from_str("Current frequency of graphics (shader) clock."),
        index_label_names(),
    );
    proof {
        assert(reg.metrics@[0].name@ == "nvidia_smi_gpu_info"@);
        assert(reg.metrics@[1].name@ == "nvidia_smi_gpu_total_memory"@);
        assert(reg.metrics@[2].name@ == "nvidia_smi_gpu_used_memory"@);
        assert(reg.metrics@[3].name@ == "nvidia_smi_gpu_utilization_memory"@);
        assert(reg.metrics@[4].name@ == "nvidia_smi_gpu_utilization"@);
        assert(reg.metrics@[5].name@ == "nvidia_smi_gpu_cuda_specification"@);
        assert(reg.metrics@[6].name@ == "nvidia_smi_gpu_temperature"@);
        assert(reg.metrics@[7].name@ == "nvidia_smi_gpu_fan_speed"@);
        assert(reg.metrics@[8].name@ == "nvidia_smi_gpu_performance_state"@);
        assert(reg.metrics@[9].name@ == "nvidia_smi_gpu_power_limit"@);
        assert(reg.metrics@[10].name@ == "nvidia_smi_gpu_power_draw"@);
        assert(reg.metrics@[11].name@ == "nvidia_smi_gpu_clock_graphics"@);
    }
    proof {
        assert(!reg.has_metric("nvidia_smi_gpu_clock_max_graphics"@)) by {
            if reg.has_metric("nvidia_smi_gpu_clock_max_graphics"@) {
                let i = reg.metric_at("nvidia_smi_gpu_clock_max_graphics"@);
                assert(0 <= i < reg.metrics@.len() && reg.metrics@[i].name@ == "nvidia_smi_gpu_clock_max_graphics"@);
                assert(i == 0 || i == 1 || i == 2 || i == 3 || i == 4 || i == 5 || i == 6 || i == 7 || i == 8 || i == 9 || i == 10 || i == 11);
                if i == 0 {
                    assert(("nvidia_smi_gpu_info"@).len() == 19);
                    assert(("nvidia_smi_gpu_clock_max_graphics"@).len() == 33);
                    assert(false);
                }
                if i == 1 {
                    assert(("nvidia_smi_gpu_total_memory"@).len() == 27);
                    assert(("nvidia_smi_gpu_clock_max_graphics"@).len() == 33);
                    assert(false);
                }
                if i == 2 {
                    assert(("nvidia_smi_gpu_used_memory"@).len() == 26);
                    assert(("nvidia_smi_gpu_clock_max_graphics"@).len() == 33);
                    assert(false);
                }
                if i == 3 {
                    assert(("nvidia_smi_gpu_utilization_memory"@)[15] == 'u');
                    assert(("nvidia_smi_gpu_clock_max_graphics"@)[15] == 'c');
                    assert(false);
                }
                if i == 4 {
                    assert(("nvidia_smi_gpu_utilization"@).len() == 26);
                    assert(("nvidia_smi_gpu_clock_max_graphics"@).len() == 33);
                    assert(false);
                }
                if i == 5 {
                    assert(("nvidia_smi_gpu_cuda_specification"@)[16] == 'u');
                    assert(("nvidia_smi_gpu_clock_max_graphics"@)[16] == 'l');
                    assert(false);
                }
                if i == 6 {
                    assert(("nvidia_smi_gpu_temperature"@).len() == 26);
                    assert(("nvidia_smi_gpu_clock_max_graphics"@).len() == 33);
                    assert(false);
                }
                if i == 7 {
                    assert(("nvidia_smi_gpu_fan_speed"@).len() == 24);
                    assert(("nvidia_smi_gpu_clock_max_graphics"@).len() == 33);
                    assert(false);
                }
                if i == 8 {
                    assert(("nvidia_smi_gpu_performance_state"@).len() == 32);
                    assert(("nvidia_smi_gpu_clock_max_graphics"@).len() == 33);
                    assert(false);
                }
                if i == 9 {
                    assert(("nvidia_smi_gpu_power_limit"@).len() == 26);
                    assert(("nvidia_smi_gpu_clock_max_graphics"@).len() == 33);
                    assert(false);
                }
                if i == 10 {
                    assert(("nvidia_smi_gpu_power_draw"@).len() == 25);
                    assert(("nvidia_smi_gpu_clock_max_graphics"@).len() == 33);
                    assert(false);
                }
                if i == 11 {
                    assert(("nvidia_smi_gpu_clock_graphics"@).len() == 29);
                    assert(("nvidia_smi_gpu_clock_max_graphics"@).len() == 33);
                    assert(false);
                }
            }
        }
    }
    let _ = reg.register(
        String::from_str("nvidia_smi_gpu_clock_max_graphics"),
        String::from_str("Maximum frequency of graphics (shader) clock"),
        index_label_names(),
    );
    proof {
        assert(reg.metrics@[0].name@ == "nvidia_smi_gpu_info"@);
        assert(reg.metrics@[1].name@ == "nvidia_smi_gpu_total_memory"@);
        assert(reg.metrics@[2].name@ == "nvidia_smi_gpu_used_memory"@);
        assert(reg.metrics@[3].name@ == "nvidia_smi_gpu_utilization_memory"@);
        assert(reg.metrics@[4].name@ == "nvidia_smi_gpu_utilization"@);
        assert(reg.metrics@[5].name@ == "nvidia_smi_gpu_cuda_specification"@);
        assert(reg.metrics@[6].name@ == "nvidia_smi_gpu_temperature"@);
        assert(reg.metrics@[7].name@ == "nvidia_smi_gpu_fan_speed"@);
        assert(reg.metrics@[8].name@ == "nvidia_smi_gpu_performance_state"@);
        assert(reg.metrics@[9].name@ == "nvidia_smi_gpu_power_limit"@);
        assert(reg.metrics@[10].name@ == "nvidia_smi_gpu_power_draw"@);
        assert(reg.metrics@[11].name@ == "nvidia_smi_gpu_clock_graphics"@);
        assert(reg.metrics@[12].name@ == "nvidia_smi_gpu_clock_max_graphics"@);
    }
    proof {
        assert(!reg.has_metric("nvidia_smi_gpu_clock_memory"@)) by {
            if reg.has_metric("nvidia_smi_gpu_clock_memory"@) {
                let i = reg.metric_at("nvidia_smi_gpu_clock_memory"@);
                assert(0 <= i < reg.metrics@.len() && reg.metrics@[i].name@ == "nvidia_smi_gpu_clock_memory"@);
                assert(i == 0 || i == 1 || i == 2 || i == 3 || i == 4 || i == 5 || i == 6 || i == 7 || i == 8 || i == 9 || i == 10 || i == 11 || i == 12);
                if i == 0 {
                    assert(("nvidia_smi_gpu_info"@).len() == 19);
                    assert(("nvidia_smi_gpu_clock_memory"@).len() == 27);
                    assert(false);
                }
                if i == 1 {
                    assert(("nvidia_smi_gpu_total_memory"@)[15] == 't');
                    assert(("nvidia_smi_gpu_clock_memory"@)[15] == 'c');
                    assert(false);
                }
                if i == 2 {
                    assert(("nvidia_smi_gpu_used_memory"@).len() == 26);
                    assert(("nvidia_smi_gpu_clock_memory"@).len() == 27);
                    assert(false);
                }
                if i == 3 {
                    assert(("nvidia_smi_gpu_utilization_memory"@).len() == 33);
                    assert(("nvidia_smi_gpu_clock_memory"@).len() == 27);
                    assert(false);
                }
                if i == 4 {
                    assert(("nvidia_smi_gpu_utilization"@).len() == 26);
                    assert(("nvidia_smi_gpu_clock_memory"@).len() == 27);
                    assert(false);
                }
                if i == 5 {
                    assert(("nvidia_smi_gpu_cuda_specification"@).len() == 33);
                    assert(("nvidia_smi_gpu_clock_memory"@).len() == 27);
                    assert(false);
                }
                if i == 6 {
                    assert(("nvidia_smi_gpu_temperature"@).len() == 26);
                    assert(("nvidia_smi_gpu_clock_memory"@).len() == 27);
                    assert(false);
                }
                if i == 7 {
                    assert(("nvidia_smi_gpu_fan_speed"@).len() == 24);
                    assert(("nvidia_smi_gpu_clock_memory"@).len() == 27);
                    assert(false);
                }
                if i == 8 {
                    assert(("nvidia_smi_gpu_performance_state"@).len() == 32);
                    assert(("nvidia_smi_gpu_clock_memory"@).len() == 27);
                    assert(false);
                }
                if i == 9 {
                    assert(("nvidia_smi_gpu_power_limit"@).len() == 26);
                    assert(("nvidia_smi_gpu_clock_memory"@).len() == 27);
                    assert(false);
                }
                if i == 10 {
                    assert(("nvidia_smi_gpu_power_draw"@).len() == 25);
                    assert(("nvidia_smi_gpu_clock_memory"@).len() == 27);
                    assert(false);
                }
                if i == 11 {
                    assert(("nvidia_smi_gpu_clock_graphics"@).len() == 29);
                    assert(("nvidia_smi_gpu_clock_memory"@).len() == 27);
                    assert(false);
                }
                if i == 12 {
                    assert(("nvidia_smi_gpu_clock_max_graphics"@).len() == 33);
                    assert(("nvidia_smi_gpu_clock_memory"@).len() == 27);
                    assert(false);
                }
            }
        }
    }
    let _ = reg.register(
        String::from_str("nvidia_smi_gpu_clock_memory"),
        String::from_str("Current frequency of memory clock."),
        index_label_names(),
    );
    proof {
        assert(reg.metrics@[0].name@ == "nvidia_smi_gpu_info"@);
        assert(reg.metrics@[1].name@ == "nvidia_smi_gpu_total_memory"@);
        assert(reg.metrics@[2].name@ == "nvidia_smi_gpu_used_memory"@);
        assert(reg.metrics@[3].name@ == "nvidia_smi_gpu_utilization_memory"@);
        assert(reg.metrics@[4].name@ == "nvidia_smi_gpu_utilization"@);
        assert(reg.metrics@[5].name@ == "nvidia_smi_gpu_cuda_specification"@);
        assert(reg.metrics@[6].name@ == "nvidia_smi_gpu_temperature"@);
        assert(reg.metrics@[7].name@ == "nvidia_smi_gpu_fan_speed"@);
        assert(reg.metrics@[8].name@ == "nvidia_smi_gpu_performance_state"@);
        assert(reg.metrics@[9].name@ == "nvidia_smi_gpu_power_limit"@);
        assert(reg.metrics@[10].name@ == "nvidia_smi_gpu_power_draw"@);
        assert(reg.metrics@[11].name@ == "nvidia_smi_gpu_clock_graphics"@);
        assert(reg.metrics@[12].name@ == "nvidia_smi_gpu_clock_max_graphics"@);
        assert(reg.metrics@[13].name@ == "nvidia_smi_gpu_clock_memory"@);
    }
    proof {
        assert(!reg.has_metric("nvidia_smi_gpu_clock_max_memory"@)) by {
            if reg.has_metric("nvidia_smi_gpu_clock_max_memory"@) {
                let i = reg.metric_at("nvidia_smi_gpu_clock_max_memory"@);
                assert(0 <= i < reg.metrics@.len() && reg.metrics@[i].name@ == "nvidia_smi_gpu_clock_max_memory"@);
                assert(i == 0 || i == 1 || i == 2 || i == 3 || i == 4 || i == 5 || i == 6 || i == 7 || i == 8 || i == 9 || i == 10 || i == 11 || i == 12 || i == 13);
                if i == 0 {
                    assert(("nvidia_smi_gpu_info"@).len() == 19);
                    assert(("nvidia_smi_gpu_clock_max_memory"@).len() == 31);
                    assert(false);
                }
                if i == 1 {
                    assert(("nvidia_smi_gpu_total_memory"@).len() == 27);
                    assert(("nvidia_smi_gpu_clock_max_memory"@).len() == 31);
                    assert(false);
                }
                if i == 2 {
                    assert(("nvidia_smi_gpu_used_memory"@).len() == 26);
                    assert(("nvidia_smi_gpu_clock_max_memory"@).len() == 31);
                    assert(false);
                }
                if i == 3 {
                    assert(("nvidia_smi_gpu_utilization_memory"@).len() == 33);
                    assert(("nvidia_smi_gpu_clock_max_memory"@).len() == 31);
                    assert(false);
                }
                if i == 4 {
                    assert(("nvidia_smi_gpu_utilization"@).len() == 26);
                    assert(("nvidia_smi_gpu_clock_max_memory"@).len() == 31);
                    assert(false);
                }
                if i == 5 {
                    assert(("nvidia_smi_gpu_cuda_specification"@).len() == 33);
                    assert(("nvidia_smi_gpu_clock_max_memory"@).len() == 31);
                    assert(false);
                }
                if i == 6 {
                    assert(("nvidia_smi_gpu_temperature"@).len() == 26);
                    assert(("nvidia_smi_gpu_clock_max_memory"@).len() == 31);
                    assert(false);
                }
                if i == 7 {
                    assert(("nvidia_smi_gpu_fan_speed"@).len() == 24);
                    assert(("nvidia_smi_gpu_clock_max_memory"@).len() == 31);
                    assert(false);
                }
                if i == 8 {
                    assert(("nvidia_smi_gpu_performance_state"@).len() == 32);
                    assert(("nvidia_smi_gpu_clock_max_memory"@).len() == 31);
                    assert(false);
                }
                if i == 9 {
                    assert(("nvidia_smi_gpu_power_limit"@).len() == 26);
                    assert(("nvidia_smi_gpu_clock_max_memory"@).len() == 31);
                    assert(false);
                }
                if i == 10 {
                    assert(("nvidia_smi_gpu_power_draw"@).len() == 25);
                    assert(("nvidia_smi_gpu_clock_max_memory"@).len() == 31);
                    assert(false);
                }
                if i == 11 {
                    assert(("nvidia_smi_gpu_clock_graphics"@).len() == 29);
                    assert(("nvidia_smi_gpu_clock_max_memory"@).len() == 31);
                    assert(false);
                }
                if i == 12 {
                    assert(("nvidia_smi_gpu_clock_max_graphics"@).len() == 33);
                    assert(("nvidia_smi_gpu_clock_max_memory"@).len() == 31);
                    assert(false);
                }
                if i == 13 {
                    assert(("nvidia_smi_gpu_clock_memory"@).len() == 27);
                    assert(("nvidia_smi_gpu_clock_max_memory"@).len() == 31);
                    assert(false);
                }
            }
        }
    }
    let _ = reg.register(
        String::from_str("nvidia_smi_gpu_clock_max_memory"),
        String::from_str("Maximum frequency of memory clock."),
        index_label_names(),
    );
    proof {
        assert(reg.metrics@[0].name@ == "nvidia_smi_gpu_info"@);
        assert(reg.metrics@[1].name@ == "nvidia_smi_gpu_total_memory"@);
        assert(reg.metrics@[2].name@ == "nvidia_smi_gpu_used_memory"@);
        assert(reg.metrics@[3].name@ == "nvidia_smi_gpu_utilization_memory"@);
        assert(reg.metrics@[4].name@ == "nvidia_smi_gpu_utilization"@);
        assert(reg.metrics@[5].name@ == "nvidia_smi_gpu_cuda_specification"@);
        assert(reg.metrics@[6].name@ == "nvidia_smi_gpu_temperature"@);
        assert(reg.metrics@[7].name@ == "nvidia_smi_gpu_fan_speed"@);
        assert(reg.metrics@[8].name@ == "nvidia_smi_gpu_performance_state"@);
        assert(reg.metrics@[9].name@ == "nvidia_smi_gpu_power_limit"@);
        assert(reg.metrics@[10].name@ == "nvidia_smi_gpu_power_draw"@);
        assert(reg.metrics@[11].name@ == "nvidia_smi_gpu_clock_graphics"@);
        assert(reg.metrics@[12].name@ == "nvidia_smi_gpu_clock_max_graphics"@);
        assert(reg.metrics@[13].name@ == "nvidia_smi_gpu_clock_memory"@);
        assert(reg.metrics@[14].name@ == "nvidia_smi_gpu_clock_max_memory"@);
    }
    proof {
        assert(!reg.has_metric("nvidia_smi_gpu_clock_video"@)) by {
            if reg.has_metric("nvidia_smi_gpu_clock_video"@) {
                let i = reg.metric_at("nvidia_smi_gpu_clock_video"@);
                assert(0 <= i < reg.metrics@.len() && reg.metrics@[i].name@ == "nvidia_smi_gpu_clock_video"@);
                assert(i == 0 || i == 1 || i == 2 || i == 3 || i == 4 || i == 5 || i == 6 || i == 7 || i == 8 || i == 9 || i == 10 || i == 11 || i == 12 || i == 13 || i == 14);
                if i == 0 {
                    assert(("nvidia_smi_gpu_info"@).len() == 19);
                    assert(("nvidia_smi_gpu_clock_video"@).len() == 26);
                    assert(false);
                }
                if i == 1 {
                    assert(("nvidia_smi_gpu_total_memory"@).len() == 27);
                    assert(("nvidia_smi_gpu_clock_video"@).len() == 26);
                    assert(false);
                }
                if i == 2 {
                    assert(("nvidia_smi_gpu_used_memory"@)[15] == 'u');
                    assert(("nvidia_smi_gpu_clock_video"@)[15] == 'c');
                    assert(false);
                }
                if i == 3 {
                    assert(("nvidia_smi_gpu_utilization_memory"@).len() == 33);
                    assert(("nvidia_smi_gpu_clock_video"@).len() == 26);
                    assert(false);
                }
                if i == 4 {
                    assert(("nvidia_smi_gpu_utilization"@)[15] == 'u');
                    assert(("nvidia_smi_gpu_clock_video"@)[15] == 'c');
                    assert(false);
                }
                if i == 5 {
                    assert(("nvidia_smi_gpu_cuda_specification"@).len() == 33);
                    assert(("nvidia_smi_gpu_clock_video"@).len() == 26);
                    assert(false);
                }
                if i == 6 {
                    assert(("nvidia_smi_gpu_temperature"@)[15] == 't');
                    assert(("nvidia_smi_gpu_clock_video"@)[15] == 'c');
                    assert(false);
                }
                if i == 7 {
                    assert(("nvidia_smi_gpu_fan_speed"@).len() == 24);
                    assert(("nvidia_smi_gpu_clock_video"@).len() == 26);
                    assert(false);
                }
                if i == 8 {
                    assert(("nvidia_smi_gpu_performance_state"@).len() == 32);
                    assert(("nvidia_smi_gpu_clock_video"@).len() == 26);
                    assert(false);
                }
                if i == 9 {
                    assert(("nvidia_smi_gpu_power_limit"@)[15] == 'p');
                    assert(("nvidia_smi_gpu_clock_video"@)[15] == 'c');
                    assert(false);
                }
                if i == 10 {
                    assert(("nvidia_smi_gpu_power_draw"@).len() == 25);
                    assert(("nvidia_smi_gpu_clock_video"@).len() == 26);
                    assert(false);
                }
                if i == 11 {
                    assert(("nvidia_smi_gpu_clock_graphics"@).len() == 29);
                    assert(("nvidia_smi_gpu_clock_video"@).len() == 26);
                    assert(false);
                }
                if i == 12 {
                    assert(("nvidia_smi_gpu_clock_max_graphics"@).len() == 33);
                    assert(("nvidia_smi_gpu_clock_video"@).len() == 26);
                    assert(false);
                }
                if i == 13 {
                    assert(("nvidia_smi_gpu_clock_memory"@).len() == 27);
                    assert(("nvidia_smi_gpu_clock_video"@).len() == 26);
                    assert(false);
                }
                if i == 14 {
                    assert(("nvidia_smi_gpu_clock_max_memory"@).len() == 31);
                    assert(("nvidia_smi_gpu_clock_video"@).len() == 26);
                    assert(false);
                }
            }
        }
    }
    let _ = reg.register(
        String::from_str("nvidia_smi_gpu_clock_video"),
        String::from_str("Current frequency of video encoder/decoder clock."),
        index_label_names(),
    );
    proof {
        assert(reg.metrics@[0].name@ == "nvidia_smi_gpu_info"@);
        assert(reg.metrics@[1].name@ == "nvidia_smi_gpu_total_memory"@);
        assert(reg.metrics@[2].name@ == "nvidia_smi_gpu_used_memory"@);
        assert(reg.metrics@[3].name@ == "nvidia_smi_gpu_utilization_memory"@);
        assert(reg.metrics@[4].name@ == "nvidia_smi_gpu_utilization"@);
        assert(reg.metrics@[5].name@ == "nvidia_smi_gpu_cuda_specification"@);
        assert(reg.metrics@[6].name@ == "nvidia_smi_gpu_temperature"@);
        assert(reg.metrics@[7].name@ == "nvidia_smi_gpu_fan_speed"@);
        assert(reg.metrics@[8].name@ == "nvidia_smi_gpu_performance_state"@);
        assert(reg.metrics@[9].name@ == "nvidia_smi_gpu_power_limit"@);
        assert(reg.metrics@[10].name@ == "nvidia_smi_gpu_power_draw"@);
        assert(reg.metrics@[11].name@ == "nvidia_smi_gpu_clock_graphics"@);
        assert(reg.metrics@[12].name@ == "nvidia_smi_gpu_clock_max_graphics"@);
        assert(reg.metrics@[13].name@ == "nvidia_smi_gpu_clock_memory"@);
        assert(reg.metrics@[14].name@ == "nvidia_smi_gpu_clock_max_memory"@);
        assert(reg.metrics@[15].name@ == "nvidia_smi_gpu_clock_video"@);
    }
    proof {
        assert(gpu_metrics_shape(reg));
    }
    reg
}

/// Writes one device sample into the registry: one update per metric,
/// keyed by the device's index label (the identity metric also by name,
/// driver version and firmware version).
#[verifier::rlimit(80)]
pub fn apply_sample(reg: &mut Registry, s: &DeviceSample)
    requires
        old(reg).wf(),
        gpu_metrics_shape(*old(reg)),
        sample_wf(*s),
    ensures
        final(reg).wf(),
        gpu_metrics_shape(*final(reg)),
        forall|mid: int|
            0 <= mid < GPU_METRICS ==> metric_updated(
                old(reg).metrics@[mid],
                #[trigger] final(reg).metrics@[mid],
                sample_key(*s, mid),
                sample_metric_val(*s, mid),
            ),
{
    let mut info_labels: Vec<String> = Vec::new();
    info_labels.push(s.index.clone());
    info_labels.push(s.name.clone());
    info_labels.push(s.driver_version.clone());
    info_labels.push(s.vbios_version.clone());
    proof {
        assert(info_labels.deep_view() =~= sample_key(*s, 0));
    }
    proof {
        reg.lemma_metric_at(0);
        assert(reg.metrics@[0].label_names.deep_view().len() == reg.metrics@[0].label_names@.len());
    }
    let ghost g0 = *reg;
    reg.set("nvidia_smi_gpu_info", info_labels, GaugeValue { neg: false, mantissa: 1, scale: 0 });
    proof {
        assert(forall|k: int| 0 <= k < GPU_METRICS && k != 0 ==> reg.metrics@[k] == g0.metrics@[k]);
        assert(metric_updated(g0.metrics@[0], reg.metrics@[0], sample_key(*s, 0), sample_metric_val(*s, 0)));
        assert(gpu_metrics_shape(*reg));
    }
    proof {
        reg.lemma_metric_at(1);
        assert(reg.metrics@[1].label_names.deep_view().len() == reg.metrics@[1].label_names@.len());
    }
    let ghost g1 = *reg;
    reg.set("nvidia_smi_gpu_total_memory", index_label_of(s), GaugeValue::from_i64(s.memory_total));
    proof {
        assert(forall|k: int| 0 <= k < GPU_METRICS && k != 1 ==> reg.metrics@[k] == g1.metrics@[k]);
        assert(metric_updated(g1.metrics@[1], reg.metrics@[1], sample_key(*s, 1), sample_metric_val(*s, 1)));
        assert(gpu_metrics_shape(*reg));
    }
    proof {
        reg.lemma_metric_at(2);
        assert(reg.metrics@[2].label_names.deep_view().len() == reg.metrics@[2].label_names@.len());
    }
    let ghost g2 = *reg;
    reg.set("nvidia_smi_gpu_used_memory", index_label_of(s), GaugeValue::from_i64(s.memory_used));
    proof {
        assert(forall|k: int| 0 <= k < GPU_METRICS && k != 2 ==> reg.metrics@[k] == g2.metrics@[k]);
        assert(metric_updated(g2.metrics@[2], reg.metrics@[2], sample_key(*s, 2), sample_metric_val(*s, 2)));
        assert(gpu_metrics_shape(*reg));
    }
    proof {
        reg.lemma_metric_at(3);
        assert(reg.metrics@[3].label_names.deep_view().len() == reg.metrics@[3].label_names@.len());
    }
    let ghost g3 = *reg;
    reg.set("nvidia_smi_gpu_utilization_memory", index_label_of(s), GaugeValue::from_i64(s.utilization_memory));
    proof {
        assert(forall|k: int| 0 <= k < GPU_METRICS && k != 3 ==> reg.metrics@[k] == g3.metrics@[k]);
        assert(metric_updated(g3.metrics@[3], reg.metrics@[3], sample_key(*s, 3), sample_metric_val(*s, 3)));
        assert(gpu_metrics_shape(*reg));
    }
    proof {
        reg.lemma_metric_at(4);
        assert(reg.metrics@[4].label_names.deep_view().len() == reg.metrics@[4].label_names@.len());
    }
    let ghost g4 = *reg;
    reg.set("nvidia_smi_gpu_utilization", index_label_of(s), GaugeValue::from_i64(s.utilization_gpu));
    proof {
        assert(forall|k: int| 0 <= k < GPU_METRICS && k != 4 ==> reg.metrics@[k] == g4.metrics@[k]);
        assert(metric_updated(g4.metrics@[4], reg.metrics@[4], sample_key(*s, 4), sample_metric_val(*s, 4)));
        assert(gpu_metrics_shape(*reg));
    }
    proof {
        reg.lemma_metric_at(5);
        assert(reg.metrics@[5].label_names.deep_view().len() == reg.metrics@[5].label_names@.len());
    }
    let ghost g5 = *reg;
    reg.set("nvidia_smi_gpu_cuda_specification", index_label_of(s), s.compute_cap);
    proof {
        assert(forall|k: int| 0 <= k < GPU_METRICS && k != 5 ==> reg.metrics@[k] == g5.metrics@[k]);
        assert(metric_updated(g5.metrics@[5], reg.metrics@[5], sample_key(*s, 5), sample_metric_val(*s, 5)));
        assert(gpu_metrics_shape(*reg));
    }
    proof {
        reg.lemma_metric_at(6);
        assert(reg.metrics@[6].label_names.deep_view().len() == reg.metrics@[6].label_names@.len());
    }
    let ghost g6 = *reg;
    reg.set("nvidia_smi_gpu_temperature", index_label_of(s), GaugeValue::from_i64(s.temperature));
    proof {
        assert(forall|k: int| 0 <= k < GPU_METRICS && k != 6 ==> reg.metrics@[k] == g6.metrics@[k]);
        assert(metric_updated(g6.metrics@[6], reg.metrics@[6], sample_key(*s, 6), sample_metric_val(*s, 6)));
        assert(gpu_metrics_shape(*reg));
    }
    proof {
        reg.lemma_metric_at(7);
        assert(reg.metrics@[7].label_names.deep_view().len() == reg.metrics@[7].label_names@.len());
    }
    let ghost g7 = *reg;
    reg.set("nvidia_smi_gpu_fan_speed", index_label_of(s), GaugeValue::from_i64(s.fan_speed));
    proof {
        assert(forall|k: int| 0 <= k < GPU_METRICS && k != 7 ==> reg.metrics@[k] == g7.metrics@[k]);
        assert(metric_updated(g7.metrics@[7], reg.metrics@[7], sample_key(*s, 7), sample_metric_val(*s, 7)));
        assert(gpu_metrics_shape(*reg));
    }
    proof {
        reg.lemma_metric_at(8);
        assert(reg.metrics@[8].label_names.deep_view().len() == reg.metrics@[8].label_names@.len());
    }
    let ghost g8 = *reg;
    reg.set("nvidia_smi_gpu_performance_state", index_label_of(s), GaugeValue::from_i64(s.performance_state));
    proof {
        assert(forall|k: int| 0 <= k < GPU_METRICS && k != 8 ==> reg.metrics@[k] == g8.metrics@[k]);
        assert(metric_updated(g8.metrics@[8], reg.metrics@[8], sample_key(*s, 8), sample_metric_val(*s, 8)));
        assert(gpu_metrics_shape(*reg));
    }
    proof {
        reg.lemma_metric_at(9);
        assert(reg.metrics@[9].label_names.deep_view().len() == reg.metrics@[9].label_names@.len());
    }
    let ghost g9 = *reg;
    reg.set("nvidia_smi_gpu_power_limit", index_label_of(s), s.power_limit);
    proof {
        assert(forall|k: int| 0 <= k < GPU_METRICS && k != 9 ==> reg.metrics@[k] == g9.metrics@[k]);
        assert(metric_updated(g9.metrics@[9], reg.metrics@[9], sample_key(*s, 9), sample_metric_val(*s, 9)));
        assert(gpu_metrics_shape(*reg));
    }
    proof {
        reg.lemma_metric_at(10);
        assert(reg.metrics@[10].label_names.deep_view().len() == reg.metrics@[10].label_names@.len());
    }
    let ghost g10 = *reg;
    reg.set("nvidia_smi_gpu_power_draw", index_label_of(s), s.power_draw);
    proof {
        assert(forall|k: int| 0 <= k < GPU_METRICS && k != 10 ==> reg.metrics@[k] == g10.metrics@[k]);
        assert(metric_updated(g10.metrics@[10], reg.metrics@[10], sample_key(*s, 10), sample_metric_val(*s, 10)));
        assert(gpu_metrics_shape(*reg));
    }
    proof {
        reg.lemma_metric_at(11);
        assert(reg.metrics@[11].label_names.deep_view().len() == reg.metrics@[11].label_names@.len());
    }
    let ghost g11 = *reg;
    reg.set("nvidia_smi_gpu_clock_graphics", index_label_of(s), GaugeValue::from_i64(s.clock_graphics));
    proof {
        assert(forall|k: int| 0 <= k < GPU_METRICS && k != 11 ==> reg.metrics@[k] == g11.metrics@[k]);
        assert(metric_updated(g11.metrics@[11], reg.metrics@[11], sample_key(*s, 11), sample_metric_val(*s, 11)));
        assert(gpu_metrics_shape(*reg));
    }
    proof {
        reg.lemma_metric_at(12);
        assert(reg.metrics@[12].label_names.deep_view().len() == reg.metrics@[12].label_names@.len());
    }
    let ghost g12 = *reg;
    reg.set("nvidia_smi_gpu_clock_max_graphics", index_label_of(s), GaugeValue::from_i64(s.clock_max_graphics));
    proof {
        assert(forall|k: int| 0 <= k < GPU_METRICS && k != 12 ==> reg.metrics@[k] == g12.metrics@[k]);
        assert(metric_updated(g12.metrics@[12], reg.metrics@[12], sample_key(*s, 12), sample_metric_val(*s, 12)));
        assert(gpu_metrics_shape(*reg));
    }
    proof {
        reg.lemma_metric_at(13);
        assert(reg.metrics@[13].label_names.deep_view().len() == reg.metrics@[13].label_names@.len());
    }
    let ghost g13 = *reg;
    reg.set("nvidia_smi_gpu_clock_memory", index_label_of(s), GaugeValue::from_i64(s.clock_memory));
    proof {
        assert(forall|k: int| 0 <= k < GPU_METRICS && k != 13 ==> reg.metrics@[k] == g13.metrics@[k]);
        assert(metric_updated(g13.metrics@[13], reg.metrics@[13], sample_key(*s, 13), sample_metric_val(*s, 13)));
        assert(gpu_metrics_shape(*reg));
    }
    proof {
        reg.lemma_metric_at(14);
        assert(reg.metrics@[14].label_names.deep_view().len() == reg.metrics@[14].label_names@.len());
    }
    let ghost g14 = *reg;
    reg.set("nvidia_smi_gpu_clock_max_memory", index_label_of(s), GaugeValue::from_i64(s.clock_max_memory));
    proof {
        assert(forall|k: int| 0 <= k < GPU_METRICS && k != 14 ==> reg.metrics@[k] == g14.metrics@[k]);
        assert(metric_updated(g14.metrics@[14], reg.metrics@[14], sample_key(*s, 14), sample_metric_val(*s, 14)));
        assert(gpu_metrics_shape(*reg));
    }
    proof {
        reg.lemma_metric_at(15);
        assert(reg.metrics@[15].label_names.deep_view().len() == reg.metrics@[15].label_names@.len());
    }
    let ghost g15 = *reg;
    reg.set("nvidia_smi_gpu_clock_video", index_label_of(s), GaugeValue::from_i64(s.clock_video));
    proof {
        assert(forall|k: int| 0 <= k < GPU_METRICS && k != 15 ==> reg.metrics@[k] == g15.metrics@[k]);
        assert(metric_updated(g15.metrics@[15], reg.metrics@[15], sample_key(*s, 15), sample_metric_val(*s, 15)));
        assert(gpu_metrics_shape(*reg));
    }
    proof {
        assert(metric_updated(old(reg).metrics@[0], reg.metrics@[0], sample_key(*s, 0), sample_metric_val(*s, 0)));
        assert(metric_updated(old(reg).metrics@[1], reg.metrics@[1], sample_key(*s, 1), sample_metric_val(*s, 1)));
        assert(metric_updated(old(reg).metrics@[2], reg.metrics@[2], sample_key(*s, 2), sample_metric_val(*s, 2)));
        assert(metric_updated(old(reg).metrics@[3], reg.metrics@[3], sample_key(*s, 3), sample_metric_val(*s, 3)));
        assert(metric_updated(old(reg).metrics@[4], reg.metrics@[4], sample_key(*s, 4), sample_metric_val(*s, 4)));
        assert(metric_updated(old(reg).metrics@[5], reg.metrics@[5], sample_key(*s, 5), sample_metric_val(*s, 5)));
        assert(metric_updated(old(reg).metrics@[6], reg.metrics@[6], sample_key(*s, 6), sample_metric_val(*s, 6)));
        assert(metric_updated(old(reg).metrics@[7], reg.metrics@[7], sample_key(*s, 7), sample_metric_val(*s, 7)));
        assert(metric_updated(old(reg).metrics@[8], reg.metrics@[8], sample_key(*s, 8), sample_metric_val(*s, 8)));
        assert(metric_updated(old(reg).metrics@[9], reg.metrics@[9], sample_key(*s, 9), sample_metric_val(*s, 9)));
        assert(metric_updated(old(reg).metrics@[10], reg.metrics@[10], sample_key(*s, 10), sample_metric_val(*s, 10)));
        assert(metric_updated(old(reg).metrics@[11], reg.metrics@[11], sample_key(*s, 11), sample_metric_val(*s, 11)));
        assert(metric_updated(old(reg).metrics@[12], reg.metrics@[12], sample_key(*s, 12), sample_metric_val(*s, 12)));
        assert(metric_updated(old(reg).metrics@[13], reg.metrics@[13], sample_key(*s, 13), sample_metric_val(*s, 13)));
        assert(metric_updated(old(reg).metrics@[14], reg.metrics@[14], sample_key(*s, 14), sample_metric_val(*s, 14)));
        assert(metric_updated(old(reg).metrics@[15], reg.metrics@[15], sample_key(*s, 15), sample_metric_val(*s, 15)));
    }
}


/// The label combination one output row writes under metric `mid`.
pub open spec fn row_key(toks: Seq<Seq<char>>, mid: int) -> Seq<Seq<char>> {
    if mid == 0 {
        seq![toks[0], toks[1], toks[2], toks[3]]
    } else {
        seq![toks[0]]
    }
}

/// The value one output row writes under metric `mid`.
pub open spec fn row_val(toks: Seq<Seq<char>>, mid: int) -> GaugeValue {
    if mid == 0 {
        GaugeValue { neg: false, mantissa: 1, scale: 0 }
    } else if mid == 1 {
        GaugeValue::spec_from_i64(i64_token_val(toks[4]) as i64)
    } else if mid == 2 {
        GaugeValue::spec_from_i64(i64_token_val(toks[5]) as i64)
    } else if mid == 3 {
        GaugeValue::spec_from_i64(i64_token_val(toks[6]) as i64)
    } else if mid == 4 {
        GaugeValue::spec_from_i64(i64_token_val(toks[9]) as i64)
    } else if mid == 5 {
        dec_value(toks[7])
    } else if mid == 6 {
        GaugeValue::spec_from_i64(i64_token_val(toks[8]) as i64)
    } else if mid == 7 {
        GaugeValue::spec_from_i64(i64_token_val(toks[10]) as i64)
    } else if mid == 8 {
        GaugeValue::spec_from_i64(pstate_val(toks[11]) as i64)
    } else if mid == 9 {
        dec_value(toks[12])
    } else if mid == 10 {
        power_draw_value(toks[13])
    } else if mid == 11 {
        GaugeValue::spec_from_i64(i64_token_val(toks[14]) as i64)
    } else if mid == 12 {
        GaugeValue::spec_from_i64(i64_token_val(toks[17]) as i64)
    } else if mid == 13 {
        GaugeValue::spec_from_i64(i64_token_val(toks[15]) as i64)
    } else if mid == 14 {
        GaugeValue::spec_from_i64(i64_token_val(toks[18]) as i64)
    } else {
        GaugeValue::spec_from_i64(i64_token_val(toks[16]) as i64)
    }
}

/// A sample parsed from a row writes the row's own key and value.
pub proof fn lemma_sample_row(s: DeviceSample, toks: Seq<Seq<char>>, mid: int)
    requires
        sample_matches(s, toks),
        0 <= mid < GPU_METRICS,
    ensures
        sample_key(s, mid) == row_key(toks, mid),
        sample_metric_val(s, mid) == row_val(toks, mid),
{
    assert(sample_key(s, mid) =~~= row_key(toks, mid));
}

/// Some row before `upto` writes `key` under metric `mid`.
pub open spec fn written(rows: Seq<Seq<char>>, upto: int, mid: int, key: Seq<Seq<char>>) -> bool {
    exists|i: int| 0 <= i < upto && row_key(row_tokens(#[trigger] rows[i]), mid) == key
}

/// No row after `i` (before `upto`) writes the key row `i` writes.
pub open spec fn final_writer(rows: Seq<Seq<char>>, upto: int, mid: int, i: int) -> bool {
    forall|j: int|
        i < j < upto ==> row_key(row_tokens(#[trigger] rows[j]), mid) != row_key(
            row_tokens(rows[i]),
            mid,
        )
}

/// What applying the first `upto` rows does to the registry: under every
/// metric, the key of each row that no later row overwrites carries that
/// row's value; a combination is present exactly when it was present
/// before or some row wrote it; and a combination no row wrote keeps its
/// old value.
pub open spec fn scrape_step(om: Registry, tm: Registry, rows: Seq<Seq<char>>, upto: int) -> bool {
    &&& forall|mid: int, i: int| #![trigger row_val(row_tokens(rows[i]), mid)]
        0 <= mid < GPU_METRICS && 0 <= i < upto && final_writer(rows, upto, mid, i)
            ==> tm.metrics@[mid].has_series(row_key(row_tokens(rows[i]), mid))
            && tm.metrics@[mid].series_val(row_key(row_tokens(rows[i]), mid)) == row_val(
            row_tokens(rows[i]),
            mid,
        )
    &&& forall|mid: int, key: Seq<Seq<char>>| #![trigger tm.metrics@[mid].has_series(key)]
        0 <= mid < GPU_METRICS ==> ((tm.metrics@[mid].has_series(key) <==> (
        om.metrics@[mid].has_series(key) || written(rows, upto, mid, key))) && (!written(
            rows,
            upto,
            mid,
            key,
        ) && om.metrics@[mid].has_series(key) ==> tm.metrics@[mid].series_val(key)
            == om.metrics@[mid].series_val(key)))
}

/// Runs one scrape's worth of updates: parses every row of the query
/// output and, when all rows are well formed, writes every sample into the
/// registry in row order, so that the last row writing a key wins.  A
/// malformed row rejects the whole scrape and leaves the registry
/// untouched.
#[verifier::rlimit(80)]
pub fn scrape(reg: &mut Registry, out: &str) -> (r: Result<(), ScrapeError>)
    requires
        old(reg).wf(),
        gpu_metrics_shape(*old(reg)),
    ensures
        final(reg).wf(),
        gpu_metrics_shape(*final(reg)),
        r is Ok <==> (forall|i: int|
            0 <= i < output_lines(out@).len() ==> wf_row(
                row_tokens(#[trigger] output_lines(out@)[i]),
            )),
        r is Err ==> *final(reg) == *old(reg) && r->Err_0.line < output_lines(out@).len()
            && !wf_row(row_tokens(output_lines(out@)[r->Err_0.line as int])) && row_err_matches(
            r->Err_0.kind,
            row_tokens(output_lines(out@)[r->Err_0.line as int]),
        ),
        r is Ok ==> scrape_step(
            *old(reg),
            *final(reg),
            output_lines(out@),
            output_lines(out@).len() as int,
        ),
{
    let ghost ls = output_lines(out@);
    let ghost reg0 = *reg;
    let samples = match parse_output(out) {
        Result::Ok(v) => v,
        Result::Err(e) => {
            return Err(e);
        },
    };
    let n = samples.len();
    let mut i: usize = 0;
    while i < n
        invariant
            i <= n,
            ls == output_lines(out@),
            n == ls.len(),
            samples@.len() == n,
            forall|k: int|
                0 <= k < n ==> sample_matches(#[trigger] samples@[k], row_tokens(ls[k]))
                    && sample_wf(samples@[k]),
            reg.wf(),
            gpu_metrics_shape(*reg),
            scrape_step(reg0, *reg, ls, i as int),
        decreases n - i,
    {
        let ghost pre = *reg;
        apply_sample(reg, &samples[i]);
        proof {
            let toks_i = row_tokens(ls[i as int]);
            assert forall|mid: int| 0 <= mid < GPU_METRICS implies sample_key(
                samples@[i as int],
                mid,
            ) == row_key(toks_i, mid) && sample_metric_val(samples@[i as int], mid) == row_val(
                toks_i,
                mid,
            ) by {
                lemma_sample_row(samples@[i as int], toks_i, mid);
            }
            assert forall|mid: int, i2: int|
                #![trigger row_val(row_tokens(ls[i2]), mid)]
                0 <= mid < GPU_METRICS && 0 <= i2 < i + 1 && final_writer(
                    ls,
                    i + 1,
                    mid,
                    i2,
                ) implies reg.metrics@[mid].has_series(row_key(row_tokens(ls[i2]), mid))
                && reg.metrics@[mid].series_val(row_key(row_tokens(ls[i2]), mid)) == row_val(
                row_tokens(ls[i2]),
                mid,
            ) by {
                let key = row_key(row_tokens(ls[i2]), mid);
                assert(metric_updated(
                    pre.metrics@[mid],
                    reg.metrics@[mid],
                    sample_key(samples@[i as int], mid),
                    sample_metric_val(samples@[i as int], mid),
                ));
                if i2 == i {
                } else {
                    assert(row_key(row_tokens(ls[i as int]), mid) != key);
                    assert(final_writer(ls, i as int, mid, i2));
                    assert(row_val(row_tokens(ls[i2]), mid) == row_val(row_tokens(ls[i2]), mid));
                    assert(pre.metrics@[mid].has_series(key) && pre.metrics@[mid].series_val(key)
                        == row_val(row_tokens(ls[i2]), mid));
                }
            }
            assert forall|mid: int, key: Seq<Seq<char>>|
                #![trigger reg.metrics@[mid].has_series(key)]
                0 <= mid < GPU_METRICS implies ((reg.metrics@[mid].has_series(key) <==> (
            reg0.metrics@[mid].has_series(key) || written(ls, i + 1, mid, key))) && (!written(
                ls,
                i + 1,
                mid,
                key,
            ) && reg0.metrics@[mid].has_series(key) ==> reg.metrics@[mid].series_val(key)
                == reg0.metrics@[mid].series_val(key))) by {
                let rk = row_key(row_tokens(ls[i as int]), mid);
                assert(metric_updated(
                    pre.metrics@[mid],
                    reg.metrics@[mid],
                    sample_key(samples@[i as int], mid),
                    sample_metric_val(samples@[i as int], mid),
                ));
                assert(pre.metrics@[mid].has_series(key) <==> (reg0.metrics@[mid].has_series(key)
                    || written(ls, i as int, mid, key)));
                if key == rk {
                    assert(written(ls, i + 1, mid, key));
                    assert(reg.metrics@[mid].has_series(key));
                } else {
                    assert(reg.metrics@[mid].has_series(key) <==> pre.metrics@[mid].has_series(
                        key,
                    ));
                    if written(ls, i + 1, mid, key) {
                        let w = choose|j: int|
                            0 <= j < i + 1 && row_key(row_tokens(ls[j]), mid) == key;
                        assert(w < i);
                        assert(written(ls, i as int, mid, key));
                    }
                }
            }
        }
        i = i + 1;
    }
    Ok(())
}

/// One scrape request, end to end: runs the updates of `scrape` and, when
/// every row parses, renders the registry snapshot in the exposition
/// format.  A malformed scrape returns its error and leaves the registry
/// untouched.
pub fn handle_metrics(reg: &mut Registry, out: &str) -> (r: Result<String, ScrapeError>)
    requires
        old(reg).wf(),
        gpu_metrics_shape(*old(reg)),
    ensures
        final(reg).wf(),
        gpu_metrics_shape(*final(reg)),
        r is Ok <==> (forall|i: int|
            0 <= i < output_lines(out@).len() ==> wf_row(
                row_tokens(#[trigger] output_lines(out@)[i]),
            )),
        r is Err ==> *final(reg) == *old(reg) && r->Err_0.line < output_lines(out@).len()
            && !wf_row(row_tokens(output_lines(out@)[r->Err_0.line as int])) && row_err_matches(
            r->Err_0.kind,
            row_tokens(output_lines(out@)[r->Err_0.line as int]),
        ),
        r is Ok ==> scrape_step(
            *old(reg),
            *final(reg),
            output_lines(out@),
            output_lines(out@).len() as int,
        ) && r->Ok_0@ == render_registry(*final(reg)),
{
    match scrape(reg, out) {
        Result::Ok(()) => Ok(render(reg)),
        Result::Err(e) => Err(e),
    }
}

} // verus!

