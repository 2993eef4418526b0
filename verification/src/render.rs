//! Serializing a registry snapshot in the text exposition format: for each
//! metric a help line and a type line, then one data line per series.
//! Label values are inserted verbatim; the query tool's tokens contain no
//! quotes or line breaks.

use vstd::prelude::*;

use crate::registry::Metric;
use crate::registry::Registry;
use crate::registry::Series;
use crate::value::push_value;
use crate::value::render_value;

verus! {

/// The `name="value"` pairs of the first `k` labels, comma separated.
pub open spec fn label_pairs(ns: Seq<Seq<char>>, vs: Seq<Seq<char>>, k: int) -> Seq<char>
    decreases k,
{
    if k <= 0 {
        Seq::empty()
    } else if k == 1 {
        ns[0] + "=\""@ + vs[0] + "\""@
    } else {
        label_pairs(ns, vs, k - 1) + ","@ + ns[k - 1] + "=\""@ + vs[k - 1] + "\""@
    }
}

/// One data line: the metric name, the series' labels in braces, a space,
/// the rendered value, and a line break.
pub open spec fn series_line(name: Seq<char>, ns: Seq<Seq<char>>, s: Series) -> Seq<char> {
    if ns.len() == 0 {
        name + " "@ + render_value(s.value) + "\n"@
    } else {
        name + "{"@ + label_pairs(ns, s.labels.deep_view(), ns.len() as int) + "} "@
            + render_value(s.value) + "\n"@
    }
}

/// The help and type lines that open a metric's block.
pub open spec fn metric_header(m: Metric) -> Seq<char> {
    "# HELP "@ + m.name@ + " "@ + m.help@ + "\n"@ + "# TYPE "@ + m.name@ + " gauge\n"@
}

/// The data lines of the first `k` series of a metric, in series order.
pub open spec fn series_lines(m: Metric, k: int) -> Seq<char>
    decreases k,
{
    if k <= 0 {
        Seq::empty()
    } else {
        series_lines(m, k - 1) + series_line(m.name@, m.label_names.deep_view(), m.series@[k - 1])
    }
}

/// One metric's whole block: header, then every series line.
pub open spec fn render_metric(m: Metric) -> Seq<char> {
    metric_header(m) + series_lines(m, m.series@.len() as int)
}

/// The blocks of the first `k` metrics, in registration order.
pub open spec fn render_metrics(ms: Seq<Metric>, k: int) -> Seq<char>
    decreases k,
{
    if k <= 0 {
        Seq::empty()
    } else {
        render_metrics(ms, k - 1) + render_metric(ms[k - 1])
    }
}

/// The whole exposition text of a registry snapshot.
pub open spec fn render_registry(r: Registry) -> Seq<char> {
    render_metrics(r.metrics@, r.metrics@.len() as int)
}

/// Appends one series' data line to `out`.
#[verifier::loop_isolation(false)]
fn push_series_line(out: &mut String, name: &str, label_names: &Vec<String>, s: &Series)
    requires
        s.value.wf(),
        label_names@.len() == s.labels@.len(),
    ensures
        final(out)@ == old(out)@ + series_line(name@, label_names.deep_view(), *s),
{
    out.append(name);
    let n = label_names.len();
    if n == 0 {
        out.append(" ");
    } else {
        out.append("{");
        let ghost base = out@;
        let ghost ns = label_names.deep_view();
        let ghost vs = s.labels.deep_view();
        let mut j: usize = 0;
        while j < n
            invariant
                j <= n,
                out@ == base + label_pairs(ns, vs, j as int),
            decreases n - j,
        {
            if j > 0 {
                out.append(",");
            }
            out.append(label_names[j].as_str());
            out.append("=\"");
            out.append(s.labels[j].as_str());
            out.append("\"");
            proof {
                assert(label_names@[j as int]@ == ns[j as int]);
                assert(s.labels@[j as int]@ == vs[j as int]);
                assert(out@ =~= base + label_pairs(ns, vs, j + 1));
            }
            j = j + 1;
        }
        out.append("} ");
    }
    push_value(out, &s.value);
    out.append("\n");
    proof {
        assert(out@ =~= old(out)@ + series_line(name@, label_names.deep_view(), *s));
    }
}

/// Appends one metric's block to `out`.
#[verifier::loop_isolation(false)]
fn push_metric(out: &mut String, m: &Metric)
    requires
        m.wf(),
    ensures
        final(out)@ == old(out)@ + render_metric(*m),
{
    out.append("# HELP ");
    out.append(m.name.as_str());
    out.append(" ");
    out.append(m.help.as_str());
    out.append("\n");
    out.append("# TYPE ");
    out.append(m.name.as_str());
    out.append(" gauge\n");
    proof {
        assert(out@ =~= old(out)@ + metric_header(*m));
    }
    let n = m.series.len();
    let mut k: usize = 0;
    while k < n
        invariant
            k <= n,
            out@ == old(out)@ + metric_header(*m) + series_lines(*m, k as int),
        decreases n - k,
    {
        push_series_line(out, m.name.as_str(), &m.label_names, &m.series[k]);
        proof {
            assert(out@ =~= old(out)@ + metric_header(*m) + series_lines(*m, k + 1));
        }
        k = k + 1;
    }
    proof {
        assert(out@ =~= old(out)@ + render_metric(*m));
    }
}

/// Renders the whole registry snapshot.
#[verifier::loop_isolation(false)]
pub fn render(reg: &Registry) -> (r: String)
    requires
        reg.wf(),
    ensures
        r@ == render_registry(*reg),
{
    let mut out = String::new();
    let n = reg.metrics.len();
    let mut i: usize = 0;
    while i < n
        invariant
            i <= n,
            out@ == render_metrics(reg.metrics@, i as int),
        decreases n - i,
    {
        push_metric(&mut out, &reg.metrics[i]);
        proof {
            assert(out@ =~= render_metrics(reg.metrics@, i + 1));
        }
        i = i + 1;
    }
    out
}

} // verus!
