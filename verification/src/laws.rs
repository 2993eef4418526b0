//! Registry-wide guarantees about the rendered exposition text: every
//! registered metric's header, and one data line per label combination
//! seen so far, stand in the output, and no two series of a metric share a
//! label combination.

use vstd::prelude::*;

use crate::exporter::GPU_METRICS;
use crate::exporter::final_writer;
use crate::exporter::row_key;
use crate::exporter::row_val;
use crate::exporter::scrape_step;
use crate::exporter::written;
use crate::registry::Registry;
use crate::render::metric_header;
use crate::render::render_metric;
use crate::render::render_metrics;
use crate::render::render_registry;
use crate::render::series_line;
use crate::render::series_lines;
use crate::tokens::row_tokens;

verus! {

/// `needle` occurs somewhere in `hay`.
pub open spec fn contains(hay: Seq<char>, needle: Seq<char>) -> bool {
    exists|k: int|
        0 <= k && k + needle.len() <= hay.len() && #[trigger] hay.subrange(k, k + needle.len())
            == needle
}

/// A prefix keeps everything it contains when more text follows.
pub proof fn lemma_contains_left(a: Seq<char>, b: Seq<char>, needle: Seq<char>)
    requires
        contains(a, needle),
    ensures
        contains(a + b, needle),
{
    let k = choose|k: int|
        0 <= k && k + needle.len() <= a.len() && #[trigger] a.subrange(k, k + needle.len()) == needle;
    assert((a + b).subrange(k, k + needle.len()) =~= needle);
}

/// A suffix keeps everything it contains when text comes before it.
pub proof fn lemma_contains_right(a: Seq<char>, b: Seq<char>, needle: Seq<char>)
    requires
        contains(b, needle),
    ensures
        contains(a + b, needle),
{
    let k = choose|k: int|
        0 <= k && k + needle.len() <= b.len() && #[trigger] b.subrange(k, k + needle.len()) == needle;
    assert((a + b).subrange(a.len() + k, a.len() + k + needle.len()) =~= needle);
}

/// A sequence contains itself.
pub proof fn lemma_contains_self(s: Seq<char>)
    ensures
        contains(s, s),
{
    assert(s.subrange(0, 0 + s.len() as int) =~= s);
}

/// The block of series lines contains the line of each of its series.
proof fn lemma_series_lines_contain(r: Registry, mid: int, j: int, k: int)
    requires
        0 <= mid < r.metrics@.len(),
        0 <= j < k <= r.metrics@[mid].series@.len(),
    ensures
        contains(
            series_lines(r.metrics@[mid], k),
            series_line(
                r.metrics@[mid].name@,
                r.metrics@[mid].label_names.deep_view(),
                r.metrics@[mid].series@[j],
            ),
        ),
    decreases k,
{
    let m = r.metrics@[mid];
    let line = series_line(m.name@, m.label_names.deep_view(), m.series@[j]);
    if j == k - 1 {
        lemma_contains_self(line);
        lemma_contains_right(series_lines(m, k - 1), line, line);
    } else {
        lemma_series_lines_contain(r, mid, j, k - 1);
        lemma_contains_left(
            series_lines(m, k - 1),
            series_line(m.name@, m.label_names.deep_view(), m.series@[k - 1]),
            line,
        );
    }
}

/// The rendered registry contains each metric's whole block.
proof fn lemma_metrics_contain(r: Registry, mid: int, k: int)
    requires
        0 <= mid < k <= r.metrics@.len(),
    ensures
        contains(render_metrics(r.metrics@, k), render_metric(r.metrics@[mid])),
    decreases k,
{
    if mid == k - 1 {
        lemma_contains_self(render_metric(r.metrics@[mid]));
        lemma_contains_right(
            render_metrics(r.metrics@, k - 1),
            render_metric(r.metrics@[k - 1]),
            render_metric(r.metrics@[mid]),
        );
    } else {
        lemma_metrics_contain(r, mid, k - 1);
        lemma_contains_left(
            render_metrics(r.metrics@, k - 1),
            render_metric(r.metrics@[k - 1]),
            render_metric(r.metrics@[mid]),
        );
    }
}

/// Containment composes through one containing block.
pub proof fn lemma_contains_trans(hay: Seq<char>, mid: Seq<char>, needle: Seq<char>)
    requires
        contains(hay, mid),
        contains(mid, needle),
    ensures
        contains(hay, needle),
{
    let k = choose|k: int| 0 <= k && k + mid.len() <= hay.len() && #[trigger] hay.subrange(k, k + mid.len()) == mid;
    let j = choose|j: int|
        0 <= j && j + needle.len() <= mid.len() && #[trigger] mid.subrange(j, j + needle.len()) == needle;
    assert(hay.subrange(k + j, k + j + needle.len()) =~= needle);
}

/// The exposition text of a registry contains, for every registered
/// metric, its help and type header.
pub proof fn lemma_exposition_has_header(r: Registry, mid: int)
    requires
        0 <= mid < r.metrics@.len(),
    ensures
        contains(render_registry(r), metric_header(r.metrics@[mid])),
{
    lemma_metrics_contain(r, mid, r.metrics@.len() as int);
    let m = r.metrics@[mid];
    lemma_contains_self(metric_header(m));
    lemma_contains_left(metric_header(m), series_lines(m, m.series@.len() as int), metric_header(m));
    lemma_contains_trans(render_registry(r), render_metric(m), metric_header(m));
}

/// The exposition text of a registry contains one data line for every
/// label combination of every metric, carrying that series' current value.
pub proof fn lemma_exposition_has_series(r: Registry, mid: int, j: int)
    requires
        0 <= mid < r.metrics@.len(),
        0 <= j < r.metrics@[mid].series@.len(),
    ensures
        contains(
            render_registry(r),
            series_line(
                r.metrics@[mid].name@,
                r.metrics@[mid].label_names.deep_view(),
                r.metrics@[mid].series@[j],
            ),
        ),
{
    let m = r.metrics@[mid];
    lemma_metrics_contain(r, mid, r.metrics@.len() as int);
    lemma_series_lines_contain(r, mid, j, m.series@.len() as int);
    lemma_contains_right(
        metric_header(m),
        series_lines(m, m.series@.len() as int),
        series_line(m.name@, m.label_names.deep_view(), m.series@[j]),
    );
    lemma_contains_trans(
        render_registry(r),
        render_metric(m),
        series_line(m.name@, m.label_names.deep_view(), m.series@[j]),
    );
}

/// Rendering immediately after a scrape shows the latest value: for every
/// metric, the key of each row that no later row of that scrape overwrote
/// carries that row's value, and the exposition text contains that
/// series' data line.
pub proof fn law_latest_value_rendered(om: Registry, tm: Registry, rows: Seq<Seq<char>>, mid: int, i: int)
    requires
        tm.wf(),
        tm.metrics@.len() == GPU_METRICS,
        scrape_step(om, tm, rows, rows.len() as int),
        0 <= mid < GPU_METRICS,
        0 <= i < rows.len(),
        final_writer(rows, rows.len() as int, mid, i),
    ensures
        ({
            let m = tm.metrics@[mid];
            let key = row_key(row_tokens(rows[i]), mid);
            let j = m.series_at(key);
            &&& m.has_series(key)
            &&& 0 <= j < m.series@.len()
            &&& m.series@[j].value == row_val(row_tokens(rows[i]), mid)
            &&& contains(
                render_registry(tm),
                series_line(m.name@, m.label_names.deep_view(), m.series@[j]),
            )
        }),
{
    let m = tm.metrics@[mid];
    let key = row_key(row_tokens(rows[i]), mid);
    assert(m.has_series(key) && m.series_val(key) == row_val(row_tokens(rows[i]), mid)) by {
        assert(row_val(row_tokens(rows[i]), mid) == row_val(row_tokens(rows[i]), mid));
    }
    let j = m.series_at(key);
    assert(0 <= j < m.series@.len() && m.series@[j].labels.deep_view() == key);
    lemma_exposition_has_series(tm, mid, j);
}

/// A label combination that a scrape did not write keeps its old value,
/// and the exposition text still contains its data line: devices absent
/// from the latest scrape stay visible with their last reported values.
pub proof fn law_stale_series_rendered(
    om: Registry,
    tm: Registry,
    rows: Seq<Seq<char>>,
    mid: int,
    key: Seq<Seq<char>>,
)
    requires
        tm.wf(),
        tm.metrics@.len() == GPU_METRICS,
        scrape_step(om, tm, rows, rows.len() as int),
        0 <= mid < GPU_METRICS,
        !written(rows, rows.len() as int, mid, key),
        om.metrics@[mid].has_series(key),
    ensures
        ({
            let m = tm.metrics@[mid];
            let j = m.series_at(key);
            &&& m.has_series(key)
            &&& 0 <= j < m.series@.len()
            &&& m.series@[j].value == om.metrics@[mid].series_val(key)
            &&& contains(
                render_registry(tm),
                series_line(m.name@, m.label_names.deep_view(), m.series@[j]),
            )
        }),
{
    let m = tm.metrics@[mid];
    assert(m.has_series(key) && m.series_val(key) == om.metrics@[mid].series_val(key));
    let j = m.series_at(key);
    assert(0 <= j < m.series@.len() && m.series@[j].labels.deep_view() == key);
    lemma_exposition_has_series(tm, mid, j);
}

/// No two series of one metric of a well-formed registry share a label
/// combination: the exposition text carries no duplicate pair of metric
/// and label set.
pub proof fn lemma_no_duplicate_series(r: Registry, mid: int, j: int, k: int)
    requires
        r.wf(),
        0 <= mid < r.metrics@.len(),
        0 <= j < k < r.metrics@[mid].series@.len(),
    ensures
        r.metrics@[mid].series@[j].labels.deep_view() != r.metrics@[mid].series@[k].labels.deep_view(),
{
}

} // verus!
