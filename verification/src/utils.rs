//! Metric families and their text exposition.
//!
//! A `MetricFamily` is rendered as a `# HELP` line, a `# TYPE` line, and one
//! line per series: `name{label="value",...} value`. Label order within a
//! series is the order in which the labels were attached, so output is stable
//! across invocations. Label text is copied verbatim; the caller supplies
//! label-safe bytes.

use vstd::prelude::*;
use vstd::string::StringSliceAdditionalSpecFns;

use crate::Lamports;
use crate::text::{bytes_of, dec_bytes, dec_pad_bytes, push_bytes, spec_dec, spec_dec_pad};

verus! {

/// Scale factor between the smallest native unit and a whole unit.
pub const LAMPORTS_PER_SOL: u64 = 1000000000;

/// One `name="value"` pair attached to a series.
pub struct Label {
    pub name: Vec<u8>,
    pub value: Vec<u8>,
}

/// Mathematical image of a `Label`.
pub struct LabelV {
    pub name: Seq<u8>,
    pub value: Seq<u8>,
}

impl View for Label {
    type V = LabelV;

    open spec fn view(&self) -> LabelV {
        LabelV { name: self.name@, value: self.value@ }
    }
}

pub open spec fn labels_view(s: Seq<Label>) -> Seq<LabelV> {
    s.map_values(|l: Label| l@)
}

/// A series value: a plain count, emitted unscaled, or an amount in
/// lamports, emitted as whole units with nine fractional digits.
#[derive(Clone, Copy)]
pub enum MetricValue {
    Count(u64),
    Sol(Lamports),
}

/// One series: a value and the labels attached to it.
pub struct Metric {
    pub value: MetricValue,
    pub labels: Vec<Label>,
}

/// Mathematical image of a `Metric`.
pub struct MetricV {
    pub value: MetricValue,
    pub labels: Seq<LabelV>,
}

impl View for Metric {
    type V = MetricV;

    open spec fn view(&self) -> MetricV {
        MetricV { value: self.value, labels: labels_view(self.labels@) }
    }
}

impl Metric {
    /// A series holding an unscaled count, with no labels yet.
    pub fn new(value: u64) -> (r: Metric)
        ensures
            r@.value == MetricValue::Count(value),
            r@.labels == Seq::<LabelV>::empty(),
    {
        let r = Metric { value: MetricValue::Count(value), labels: Vec::new() };
        proof {
            assert(r@.labels =~= Seq::<LabelV>::empty());
        }
        r
    }

    /// A series holding a currency amount, with no labels yet.
    pub fn new_sol(value: Lamports) -> (r: Metric)
        ensures
            r@.value == MetricValue::Sol(value),
            r@.labels == Seq::<LabelV>::empty(),
    {
        let r = Metric { value: MetricValue::Sol(value), labels: Vec::new() };
        proof {
            assert(r@.labels =~= Seq::<LabelV>::empty());
        }
        r
    }

    /// Attaches one more label after those already present.
    pub fn with_label(self, name: Vec<u8>, value: Vec<u8>) -> (r: Metric)
        ensures
            r@.value == self@.value,
            r@.labels == self@.labels.push((LabelV { name: name@, value: value@ })),
    {
        let mut m = self;
        let ghost before = m@.labels;
        m.labels.push(Label { name, value });
        proof {
            assert(labels_view(m.labels@) =~= before.push(m.labels@.last()@));
        }
        m
    }

    /// Attaches the label when a value is present; otherwise leaves the
    /// series untouched — an absent optional label is simply not written.
    pub fn with_optional_label(self, name: Vec<u8>, value: Option<Vec<u8>>) -> (r: Metric)
        ensures
            r@.value == self@.value,
            r@.labels == (match value {
                Some(v) => self@.labels.push((LabelV { name: name@, value: v@ })),
                None => self@.labels,
            }),
    {
        match value {
            Some(v) => self.with_label(name, v),
            None => self,
        }
    }
}

/// A named group of same-typed series sharing one help text.
pub struct MetricFamily {
    pub name: Vec<u8>,
    pub help: Vec<u8>,
    pub type_: Vec<u8>,
    pub metrics: Vec<Metric>,
}

/// Mathematical image of a `MetricFamily`.
pub struct MetricFamilyV {
    pub name: Seq<u8>,
    pub help: Seq<u8>,
    pub type_: Seq<u8>,
    pub metrics: Seq<MetricV>,
}

pub open spec fn metrics_view(s: Seq<Metric>) -> Seq<MetricV> {
    s.map_values(|m: Metric| m@)
}

impl View for MetricFamily {
    type V = MetricFamilyV;

    open spec fn view(&self) -> MetricFamilyV {
        MetricFamilyV {
            name: self.name@,
            help: self.help@,
            type_: self.type_@,
            metrics: metrics_view(self.metrics@),
        }
    }
}

/// Text of one `name="value"` pair.
pub open spec fn label_text(l: LabelV) -> Seq<u8> {
    l.name + seq![61u8, 34u8] + l.value + seq![34u8]
}

/// Text of a label list, comma separated.
pub open spec fn labels_text(ls: Seq<LabelV>) -> Seq<u8>
    decreases ls.len(),
{
    if ls.len() == 0 {
        Seq::empty()
    } else if ls.len() == 1 {
        label_text(ls.last())
    } else {
        labels_text(ls.drop_last()) + seq![44u8] + label_text(ls.last())
    }
}

/// Text of the brace-enclosed label block; nothing at all when the series
/// carries no labels.
pub open spec fn labels_block_text(ls: Seq<LabelV>) -> Seq<u8> {
    if ls.len() == 0 {
        Seq::empty()
    } else {
        seq![123u8] + labels_text(ls) + seq![125u8]
    }
}

/// Text of a series value: counts unscaled; currency amounts as whole units,
/// a dot, and nine zero-padded fractional digits.
pub open spec fn value_text(v: MetricValue) -> Seq<u8> {
    match v {
        MetricValue::Count(n) => spec_dec(n as nat),
        MetricValue::Sol(l) => spec_dec((l.0 / LAMPORTS_PER_SOL) as nat) + seq![46u8]
            + spec_dec_pad((l.0 % LAMPORTS_PER_SOL) as nat, 9),
    }
}

/// Text of one series line.
pub open spec fn metric_text(name: Seq<u8>, m: MetricV) -> Seq<u8> {
    name + labels_block_text(m.labels) + seq![32u8] + value_text(m.value) + seq![10u8]
}

/// Text of the series lines of a family, in order.
pub open spec fn metrics_text(name: Seq<u8>, ms: Seq<MetricV>) -> Seq<u8>
    decreases ms.len(),
{
    if ms.len() == 0 {
        Seq::empty()
    } else {
        metrics_text(name, ms.drop_last()) + metric_text(name, ms.last())
    }
}

/// Text of a whole family: help line, type line, series lines.
pub open spec fn family_text(f: MetricFamilyV) -> Seq<u8> {
    ("# HELP ").spec_bytes() + f.name + seq![32u8] + f.help + seq![10u8]
        + ("# TYPE ").spec_bytes() + f.name + seq![32u8] + f.type_ + seq![10u8]
        + metrics_text(f.name, f.metrics)
}

/// Text of a sequence of families, in order.
pub open spec fn families_text(fs: Seq<MetricFamilyV>) -> Seq<u8>
    decreases fs.len(),
{
    if fs.len() == 0 {
        Seq::empty()
    } else {
        families_text(fs.drop_last()) + family_text(fs.last())
    }
}

/// Extending a family list by one family appends exactly that family's text.
pub proof fn lemma_families_text_step(fs: Seq<MetricFamilyV>, k: int)
    requires
        0 <= k < fs.len(),
    ensures
        families_text(fs.take(k + 1)) == families_text(fs.take(k)) + family_text(fs[k]),
{
    assert(fs.take(k + 1).drop_last() =~= fs.take(k));
    assert(fs.take(k + 1).last() == fs[k]);
}

fn render_labels_upto(labels: &Vec<Label>, n: usize) -> (r: Vec<u8>)
    requires
        n <= labels.len(),
    ensures
        r@ == labels_text(labels_view(labels@).take(n as int)),
    decreases n,
{
    if n == 0 {
        let r: Vec<u8> = Vec::new();
        proof {
            assert(labels_view(labels@).take(0) =~= Seq::<LabelV>::empty());
        }
        r
    } else {
        let mut r = render_labels_upto(labels, n - 1);
        if n > 1 {
            r.push(44);
        }
        let l = &labels[n - 1];
        push_bytes(&mut r, &l.name);
        r.push(61);
        r.push(34);
        push_bytes(&mut r, &l.value);
        r.push(34);
        proof {
            let ls = labels_view(labels@).take(n as int);
            assert(ls.drop_last() =~= labels_view(labels@).take(n - 1));
            assert(ls.last() == labels@[n - 1]@);
            assert(r@ =~= labels_text(ls));
        }
        r
    }
}

/// Renders a series value, matching `value_text`.
pub fn render_value(v: &MetricValue) -> (r: Vec<u8>)
    ensures
        r@ == value_text(*v),
{
    match v {
        MetricValue::Count(n) => dec_bytes(*n),
        MetricValue::Sol(l) => {
            let mut r = dec_bytes(l.0 / LAMPORTS_PER_SOL);
            r.push(46);
            let mut frac = dec_pad_bytes(l.0 % LAMPORTS_PER_SOL, 9);
            r.append(&mut frac);
            proof {
                assert(r@ =~= value_text(*v));
            }
            r
        },
    }
}

fn render_metric(name: &Vec<u8>, m: &Metric) -> (r: Vec<u8>)
    ensures
        r@ == metric_text(name@, m@),
{
    let mut r = vstd::slice::slice_to_vec(name.as_slice());
    if m.labels.len() > 0 {
        r.push(123);
        let mut inner = render_labels_upto(&m.labels, m.labels.len());
        r.append(&mut inner);
        r.push(125);
        proof {
            assert(labels_view(m.labels@).take(m.labels@.len() as int) =~= labels_view(
                m.labels@,
            ));
        }
    }
    r.push(32);
    let mut value = render_value(&m.value);
    r.append(&mut value);
    r.push(10);
    proof {
        assert(r@ =~= metric_text(name@, m@));
    }
    r
}

fn render_metrics_upto(name: &Vec<u8>, metrics: &Vec<Metric>, n: usize) -> (r: Vec<u8>)
    requires
        n <= metrics.len(),
    ensures
        r@ == metrics_text(name@, metrics_view(metrics@).take(n as int)),
    decreases n,
{
    if n == 0 {
        let r: Vec<u8> = Vec::new();
        proof {
            assert(metrics_view(metrics@).take(0) =~= Seq::<MetricV>::empty());
        }
        r
    } else {
        let mut r = render_metrics_upto(name, metrics, n - 1);
        let mut line = render_metric(name, &metrics[n - 1]);
        r.append(&mut line);
        proof {
            let ms = metrics_view(metrics@).take(n as int);
            assert(ms.drop_last() =~= metrics_view(metrics@).take(n - 1));
            assert(ms.last() == metrics@[n - 1]@);
            assert(r@ =~= metrics_text(name@, ms));
        }
        r
    }
}

/// Renders a whole family, matching `family_text`.
pub fn render_family(f: &MetricFamily) -> (r: Vec<u8>)
    ensures
        r@ == family_text(f@),
{
    let mut r = bytes_of("# HELP ");
    push_bytes(&mut r, &f.name);
    r.push(32);
    push_bytes(&mut r, &f.help);
    r.push(10);
    let mut type_line = bytes_of("# TYPE ");
    r.append(&mut type_line);
    push_bytes(&mut r, &f.name);
    r.push(32);
    push_bytes(&mut r, &f.type_);
    r.push(10);
    let mut body = render_metrics_upto(&f.name, &f.metrics, f.metrics.len());
    r.append(&mut body);
    proof {
        assert(metrics_view(f.metrics@).take(f.metrics@.len() as int) =~= metrics_view(
            f.metrics@,
        ));
        assert(r@ =~= family_text(f@));
    }
    r
}

/// Failure to deliver bytes to an output sink.
#[derive(Debug)]
pub struct WriteError {
    pub message: Vec<u8>,
}

/// An output sink for rendered metric text. `written` is the text the sink
/// has accepted so far; a refused write leaves it unchanged.
pub trait MetricSink {
    spec fn written(&self) -> Seq<u8>;

    fn write_all(&mut self, bytes: &Vec<u8>) -> (r: Result<(), WriteError>)
        ensures
            r is Ok ==> final(self).written() == old(self).written() + bytes@,
            r is Err ==> final(self).written() == old(self).written(),
    ;
}

/// A sink that accepts every write into a growing buffer.
pub struct BufferSink {
    pub bytes: Vec<u8>,
}

impl BufferSink {
    pub fn new() -> (r: BufferSink)
        ensures
            r.written() == Seq::<u8>::empty(),
    {
        let r = BufferSink { bytes: Vec::new() };
        proof {
            assert(r.bytes@ =~= Seq::<u8>::empty());
        }
        r
    }
}

impl MetricSink for BufferSink {
    open spec fn written(&self) -> Seq<u8> {
        self.bytes@
    }

    fn write_all(&mut self, bytes: &Vec<u8>) -> (r: Result<(), WriteError>)
        ensures
            r is Ok,
    {
        push_bytes(&mut self.bytes, bytes);
        Ok(())
    }
}

/// A sink that accepts a fixed number of writes and refuses every one after
/// them, for exercising a caller's failure handling.
pub struct FailingSink {
    pub bytes: Vec<u8>,
    pub writes_left: usize,
}

impl FailingSink {
    pub fn new(writes_left: usize) -> (r: FailingSink)
        ensures
            r.written() == Seq::<u8>::empty(),
    {
        let r = FailingSink { bytes: Vec::new(), writes_left };
        proof {
            assert(r.bytes@ =~= Seq::<u8>::empty());
        }
        r
    }
}

impl MetricSink for FailingSink {
    open spec fn written(&self) -> Seq<u8> {
        self.bytes@
    }

    fn write_all(&mut self, bytes: &Vec<u8>) -> (r: Result<(), WriteError>)
        ensures
            r is Ok <==> old(self).writes_left > 0,
    {
        if self.writes_left > 0 {
            self.writes_left = self.writes_left - 1;
            push_bytes(&mut self.bytes, bytes);
            Ok(())
        } else {
            Err(WriteError { message: bytes_of("write refused by sink") })
        }
    }
}

/// Renders one family and hands it to the sink in a single write: on success
/// exactly the family's text is appended, on failure nothing is.
pub fn write_metric<S: MetricSink>(out: &mut S, family: &MetricFamily) -> (r: Result<
    (),
    WriteError,
>)
    ensures
        r is Ok ==> final(out).written() == old(out).written() + family_text(family@),
        r is Err ==> final(out).written() == old(out).written(),
{
    let buf = render_family(family);
    out.write_all(&buf)
}

} // verus!
