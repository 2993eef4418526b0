//! The metric registry: a fixed set of named gauge metrics, each holding
//! one current value per label combination.  Updates are last-write-wins;
//! a label combination, once seen, is never dropped.

use vstd::prelude::*;

use crate::tokens::labels_eq;
use crate::tokens::str_eq;
use crate::value::GaugeValue;

verus! {

/// One labeled series of a metric: the label values and the current value.
pub struct Series {
    pub labels: Vec<String>,
    pub value: GaugeValue,
}

/// One registered metric: its name, help text, label names, and the series
/// seen so far, in order of first appearance.
pub struct Metric {
    pub name: String,
    pub help: String,
    pub label_names: Vec<String>,
    pub series: Vec<Series>,
}

impl Metric {
    /// Every series matches the label arity, carries a well-formed value,
    /// and no two series share a label combination.
    pub open spec fn wf(self) -> bool {
        &&& forall|j: int|
            0 <= j < self.series@.len() ==> (#[trigger] self.series@[j]).labels@.len()
                == self.label_names@.len() && self.series@[j].value.wf()
        &&& forall|j: int, k: int|
            0 <= j < k < self.series@.len() ==> (#[trigger] self.series@[j]).labels.deep_view() != (
            #[trigger] self.series@[k]).labels.deep_view()
    }

    /// Some series carries this label combination.
    pub open spec fn has_series(self, lbls: Seq<Seq<char>>) -> bool {
        exists|j: int|
            0 <= j < self.series@.len() && (#[trigger] self.series@[j]).labels.deep_view() == lbls
    }

    /// Position of the series with this label combination.
    pub open spec fn series_at(self, lbls: Seq<Seq<char>>) -> int {
        choose|j: int|
            0 <= j < self.series@.len() && (#[trigger] self.series@[j]).labels.deep_view() == lbls
    }

    /// Current value of the series with this label combination.
    pub open spec fn series_val(self, lbls: Seq<Seq<char>>) -> GaugeValue {
        self.series@[self.series_at(lbls)].value
    }

    /// Position of the series carrying these labels, or the series count
    /// when no series does.
    fn find_series(&self, labels: &Vec<String>) -> (r: usize)
        ensures
            r <= self.series@.len(),
            r < self.series@.len() ==> self.series@[r as int].labels.deep_view()
                == labels.deep_view(),
            r == self.series@.len() ==> !self.has_series(labels.deep_view()),
    {
        let n = self.series.len();
        let mut i: usize = 0;
        while i < n
            invariant
                i <= n,
                n == self.series@.len(),
                forall|k: int|
                    0 <= k < i ==> (#[trigger] self.series@[k]).labels.deep_view()
                        != labels.deep_view(),
            decreases n - i,
        {
            if labels_eq(&self.series[i].labels, labels) {
                return i;
            }
            i = i + 1;
        }
        n
    }
}

/// The series position `series_at` names is exactly the position of any
/// series carrying those labels: well-formed metrics have no duplicates.
pub proof fn lemma_series_at(m: Metric, j: int)
    requires
        m.wf(),
        0 <= j < m.series@.len(),
    ensures
        m.has_series(m.series@[j].labels.deep_view()),
        m.series_at(m.series@[j].labels.deep_view()) == j,
{
    let lv = m.series@[j].labels.deep_view();
    assert(m.has_series(lv));
    let o = m.series_at(lv);
    assert(0 <= o < m.series@.len() && m.series@[o].labels.deep_view() == lv);
    if o < j {
        assert(m.series@[o].labels.deep_view() != m.series@[j].labels.deep_view());
    }
    if j < o {
        assert(m.series@[j].labels.deep_view() != m.series@[o].labels.deep_view());
    }
}

/// The collection of registered metrics, in registration order.
pub struct Registry {
    pub metrics: Vec<Metric>,
}

impl Registry {
    /// Every metric is well formed and no two share a name.
    pub open spec fn wf(self) -> bool {
        &&& forall|i: int| 0 <= i < self.metrics@.len() ==> (#[trigger] self.metrics@[i]).wf()
        &&& forall|i: int, k: int|
            0 <= i < k < self.metrics@.len() ==> (#[trigger] self.metrics@[i]).name@ != (
            #[trigger] self.metrics@[k]).name@
    }

    /// Some metric carries this name.
    pub open spec fn has_metric(self, name: Seq<char>) -> bool {
        exists|i: int| 0 <= i < self.metrics@.len() && (#[trigger] self.metrics@[i]).name@ == name
    }

    /// Position of the metric with this name.
    pub open spec fn metric_at(self, name: Seq<char>) -> int {
        choose|i: int| 0 <= i < self.metrics@.len() && (#[trigger] self.metrics@[i]).name@ == name
    }

    /// The metric with this name.
    pub open spec fn spec_metric(self, name: Seq<char>) -> Metric {
        self.metrics@[self.metric_at(name)]
    }

    /// The metric position `metric_at` names is exactly the position of any
    /// metric carrying that name: a well-formed registry has no duplicates.
    pub proof fn lemma_metric_at(self, i: int)
        requires
            self.wf(),
            0 <= i < self.metrics@.len(),
        ensures
            self.has_metric(self.metrics@[i].name@),
            self.metric_at(self.metrics@[i].name@) == i,
    {
        let nm = self.metrics@[i].name@;
        assert(self.has_metric(nm));
        let o = self.metric_at(nm);
        assert(0 <= o < self.metrics@.len() && self.metrics@[o].name@ == nm);
        if o < i {
            assert(self.metrics@[o].name@ != self.metrics@[i].name@);
        }
        if i < o {
            assert(self.metrics@[i].name@ != self.metrics@[o].name@);
        }
    }

    /// An empty registry.
    pub fn new() -> (r: Registry)
        ensures
            r.wf(),
            r.metrics@.len() == 0,
    {
        Registry { metrics: Vec::new() }
    }

    /// Position of the metric with this name, or the metric count when the
    /// name is not registered.
    fn find_metric(&self, name: &str) -> (r: usize)
        ensures
            r <= self.metrics@.len(),
            r < self.metrics@.len() ==> self.metrics@[r as int].name@ == name@,
            r == self.metrics@.len() ==> !self.has_metric(name@),
    {
        let n = self.metrics.len();
        let mut i: usize = 0;
        while i < n
            invariant
                i <= n,
                n == self.metrics@.len(),
                forall|k: int| 0 <= k < i ==> (#[trigger] self.metrics@[k]).name@ != name@,
            decreases n - i,
        {
            if str_eq(self.metrics[i].name.as_str(), name) {
                return i;
            }
            i = i + 1;
        }
        n
    }

    /// Registers one gauge metric with no series yet.  A name already taken
    /// is refused and the registry is left as it was.
    pub fn register(&mut self, name: String, help: String, label_names: Vec<String>) -> (r: Result<
        (),
        (),
    >)
        requires
            old(self).wf(),
        ensures
            final(self).wf(),
            r is Ok <==> !old(self).has_metric(name@),
            r is Err ==> *final(self) == *old(self),
            r is Ok ==> final(self).metrics@.len() == old(self).metrics@.len() + 1 && (forall|
                i: int,
            |
                0 <= i < old(self).metrics@.len() ==> final(self).metrics@[i] == old(self).metrics@[i]) && final(self).metrics@.last().name == name && final(self).metrics@.last().help == help && final(self).metrics@.last().label_names
                == label_names && final(self).metrics@.last().series@.len() == 0,
    {
        let n = self.metrics.len();
        let mi = self.find_metric(name.as_str());
        if mi < n {
            return Err(());
        }
        let m = Metric { name, help, label_names, series: Vec::new() };
        self.metrics.push(m);
        Ok(())
    }

    /// Sets the current value of one series of the named metric, creating
    /// the series the first time its label combination is seen; an existing
    /// series keeps its position and only its value changes.
    pub fn set(&mut self, name: &str, labels: Vec<String>, value: GaugeValue)
        requires
            old(self).wf(),
            old(self).has_metric(name@),
            labels@.len() == old(self).spec_metric(name@).label_names@.len(),
            value.wf(),
        ensures
            final(self).wf(),
            final(self).metrics@.len() == old(self).metrics@.len(),
            forall|k: int|
                0 <= k < old(self).metrics@.len() && k != old(self).metric_at(name@) ==> final(self).metrics@[k] == old(self).metrics@[k],
            forall|k: int|
                0 <= k < old(self).metrics@.len() ==> (#[trigger] final(self).metrics@[k]).name@
                    == old(self).metrics@[k].name@ && final(self).metrics@[k].help@ == old(self).metrics@[k].help@ && final(self).metrics@[k].label_names.deep_view() == old(self).metrics@[k].label_names.deep_view(),
            ({
                let mi = old(self).metric_at(name@);
                let om = old(self).metrics@[mi];
                let tm = final(self).metrics@[mi];
                &&& if om.has_series(labels.deep_view()) {
                    &&& tm.series@.len() == om.series@.len()
                    &&& forall|j: int|
                        0 <= j < om.series@.len() ==> (#[trigger] tm.series@[j]).labels.deep_view()
                            == om.series@[j].labels.deep_view() && tm.series@[j].value == (
                        if om.series@[j].labels.deep_view() == labels.deep_view() {
                            value
                        } else {
                            om.series@[j].value
                        })
                } else {
                    &&& tm.series@.len() == om.series@.len() + 1
                    &&& forall|j: int|
                        0 <= j < om.series@.len() ==> (#[trigger] tm.series@[j]).labels.deep_view()
                            == om.series@[j].labels.deep_view() && tm.series@[j].value
                            == om.series@[j].value
                    &&& tm.series@.last().labels.deep_view() == labels.deep_view()
                    &&& tm.series@.last().value == value
                }
                &&& tm.has_series(labels.deep_view())
                &&& tm.series_val(labels.deep_view()) == value
                &&& forall|l2: Seq<Seq<char>>|
                    l2 != labels.deep_view() ==> ((tm.has_series(l2) <==> om.has_series(l2)) && (
                    om.has_series(l2) ==> tm.series_val(l2) == om.series_val(l2)))
            }),
    {
        let n = self.metrics.len();
        let mi = self.find_metric(name);
        proof {
            assert(mi < n);
            assert(old(self).metric_at(name@) == mi) by {
                let other = old(self).metric_at(name@);
                assert(0 <= other < n && old(self).metrics@[other].name@ == name@);
            }
        }
        let mut m = self.metrics.remove(mi);
        let ghost om = old(self).metrics@[mi as int];
        let ghost lv = labels.deep_view();
        let sn = m.series.len();
        let si = m.find_series(&labels);
        if si < sn {
            let s = Series { labels, value };
            m.series.remove(si);
            m.series.insert(si, s);
            proof {
                assert(om.has_series(lv));
                assert(forall|j: int|
                    0 <= j < om.series@.len() && j != si ==> m.series@[j] == om.series@[j]);
                assert(m.series@[si as int].labels.deep_view() == lv);
                assert(m.wf());
                assert(m.has_series(lv));
                assert(m.series_at(lv) == si) by {
                    let other = m.series_at(lv);
                    assert(0 <= other < m.series@.len() && m.series@[other].labels.deep_view()
                        == lv);
                }
            }
        } else {
            let s = Series { labels, value };
            m.series.push(s);
            proof {
                assert(!om.has_series(lv));
                assert(forall|j: int| 0 <= j < om.series@.len() ==> m.series@[j] == om.series@[j]);
                assert(m.series@.last().labels.deep_view() == lv);
                assert(m.wf());
                assert(m.has_series(lv));
                assert(m.series_at(lv) == om.series@.len() as int) by {
                    let other = m.series_at(lv);
                    assert(0 <= other < m.series@.len() && m.series@[other].labels.deep_view()
                        == lv);
                }
            }
        }
        self.metrics.insert(mi, m);
        proof {
            assert(forall|k: int|
                0 <= k < old(self).metrics@.len() && k != mi ==> self.metrics@[k] == old(self).metrics@[k]);
            assert(self.metrics@[mi as int] == m);
            assert(self.wf());
            let tm = self.metrics@[mi as int];
            assert forall|l2: Seq<Seq<char>>| l2 != lv implies ((tm.has_series(l2)
                <==> om.has_series(l2)) && (om.has_series(l2) ==> tm.series_val(l2)
                == om.series_val(l2))) by {
                if om.has_series(l2) {
                    let j0 = om.series_at(l2);
                    assert(0 <= j0 < om.series@.len() && om.series@[j0].labels.deep_view() == l2);
                    assert(tm.series@[j0].labels.deep_view() == l2);
                    assert(tm.has_series(l2));
                    lemma_series_at(tm, j0);
                    lemma_series_at(om, j0);
                    assert(tm.series_val(l2) == om.series_val(l2));
                }
                if tm.has_series(l2) {
                    let j1 = tm.series_at(l2);
                    assert(0 <= j1 < tm.series@.len() && tm.series@[j1].labels.deep_view() == l2);
                    if j1 < om.series@.len() {
                        assert(om.series@[j1].labels.deep_view() == l2);
                        assert(om.has_series(l2));
                    } else {
                        assert(tm.series@[j1].labels.deep_view() == lv);
                        assert(false);
                    }
                }
            }
        }
    }
}

} // verus!
