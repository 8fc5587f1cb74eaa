//! One polling cycle over a table of measurement points.
//!
//! The walk is a state machine: it names the next bus transaction, is handed
//! its outcome, and records a sample each time a point is complete. The bus
//! itself is driven by the caller. The first failed transaction ends the
//! cycle; the samples recorded before it are kept as they were.
use vstd::prelude::*;
use crate::catalog::{catalog, lemma_catalog_labels_distinct, Encoding, MeasurementPoint};
use crate::decode::{
    decode_linear11, decode_linear16, linear11_exponent, linear11_mantissa, linear16_exponent,
    Linear,
};

verus! {

/// The size of a register read.
#[derive(Clone, Copy, Debug, PartialEq, Eq, Structural)]
pub enum Width {
    Byte,
    Word,
}

/// One bus transaction: read `command` of the module at `slave`.
#[derive(Clone, Copy, Debug, PartialEq, Eq, Structural)]
pub struct BusRead {
    pub slave: u16,
    pub command: u8,
    pub width: Width,
}

/// The contents returned by a successful bus transaction.
#[derive(Clone, Copy, Debug, PartialEq, Eq, Structural)]
pub enum Reading {
    Byte(u8),
    Word(u16),
}

/// A decoded measurement.
#[derive(Clone, Copy, Debug, PartialEq, Eq, Structural)]
pub enum Value {
    /// An unsigned register value, such as a fan speed.
    Raw(u16),
    /// `mantissa * 2^exponent`.
    Linear(Linear),
}

/// The value measured at one point during a cycle.
#[derive(Clone, Copy, Debug, PartialEq, Eq, Structural)]
pub struct Sample {
    pub point: MeasurementPoint,
    pub value: Value,
}

/// The first transaction of a point.
pub open spec fn first_read(p: MeasurementPoint) -> BusRead {
    BusRead {
        slave: p.slave,
        command: p.command,
        width: if p.encoding == Encoding::RawByte {
            Width::Byte
        } else {
            Width::Word
        },
    }
}

/// The second transaction of a `Linear16Split` point: its exponent byte.
pub open spec fn exponent_read(p: MeasurementPoint) -> BusRead {
    BusRead { slave: p.slave, command: p.exponent_command, width: Width::Byte }
}

/// Whether `r` is what a transaction of width `w` returns.
pub open spec fn fits(r: Reading, w: Width) -> bool {
    match r {
        Reading::Byte(_) => w == Width::Byte,
        Reading::Word(_) => w == Width::Word,
    }
}

/// Whether `v` is the LINEAR11 decoding of `word`.
pub open spec fn is_linear11(v: Value, word: u16) -> bool {
    match v {
        Value::Linear(l) => l.mantissa == linear11_mantissa(word) && l.exponent
            == linear11_exponent(word),
        _ => false,
    }
}

/// Whether `v` is the LINEAR16 decoding of `mantissa` and `exponent`.
pub open spec fn is_linear16(v: Value, mantissa: u16, exponent: u8) -> bool {
    match v {
        Value::Linear(l) => l.mantissa == mantissa && l.exponent == linear16_exponent(exponent),
        _ => false,
    }
}

/// Whether `v` is the value of point `p` whose last transaction returned `r`,
/// after `mantissa` was read first for a `Linear16Split` point.
pub open spec fn completes(p: MeasurementPoint, mantissa: Option<u16>, r: Reading, v: Value) -> bool {
    match (p.encoding, r) {
        (Encoding::RawByte, Reading::Byte(b)) => v == Value::Raw(b as u16),
        (Encoding::RawWord, Reading::Word(w)) => v == Value::Raw(w),
        (Encoding::Linear11, Reading::Word(w)) => is_linear11(v, w),
        (Encoding::Linear16Split, Reading::Byte(b)) => mantissa is Some && is_linear16(
            v,
            mantissa->0,
            b,
        ),
        _ => false,
    }
}

/// The state of a walk, as its contracts see it.
pub struct WalkView {
    pub table: Seq<MeasurementPoint>,
    /// Index of the point being read.
    pub next: nat,
    /// The mantissa of a `Linear16Split` point whose exponent is still to come.
    pub mantissa: Option<u16>,
    pub aborted: bool,
    pub samples: Seq<Sample>,
}

impl WalkView {
    pub open spec fn finished(self) -> bool {
        self.aborted || self.next >= self.table.len()
    }

    /// The transaction that the walk waits for, if any.
    pub open spec fn request(self) -> Option<BusRead> {
        if self.finished() {
            None
        } else if self.mantissa is Some {
            Some(exponent_read(self.table[self.next as int]))
        } else {
            Some(first_read(self.table[self.next as int]))
        }
    }

    /// One sample for each point before `next`, in table order.
    pub open spec fn wf(self) -> bool {
        &&& self.next <= self.table.len()
        &&& self.samples.len() == self.next
        &&& forall|i: int| 0 <= i < self.next ==> #[trigger] self.samples[i].point == self.table[i]
        &&& self.mantissa is Some ==> self.next < self.table.len() && self.table[self.next as int].encoding
            == Encoding::Linear16Split
    }
}

/// A polling cycle over a table of measurement points.
pub struct Walker {
    table: Vec<MeasurementPoint>,
    next: usize,
    mantissa: Option<u16>,
    aborted: bool,
    samples: Vec<Sample>,
}

impl View for Walker {
    type V = WalkView;

    closed spec fn view(&self) -> WalkView {
        WalkView {
            table: self.table@,
            next: self.next as nat,
            mantissa: self.mantissa,
            aborted: self.aborted,
            samples: self.samples@,
        }
    }
}

impl Walker {
    /// Starts a cycle over `table`.
    pub fn new(table: Vec<MeasurementPoint>) -> (r: Walker)
        ensures
            r@.table == table@,
            r@.next == 0,
            r@.mantissa is None,
            !r@.aborted,
            r@.samples.len() == 0,
            r@.wf(),
    {
        Walker { table, next: 0, mantissa: None, aborted: false, samples: Vec::new() }
    }

    /// The bus transaction to perform next; `None` once the cycle is over.
    pub fn request(&self) -> (r: Option<BusRead>)
        requires
            self@.wf(),
        ensures
            r == self@.request(),
    {
        if self.aborted || self.next >= self.table.len() {
            None
        } else {
            let p = self.table[self.next];
            if self.mantissa.is_some() {
                Some(BusRead { slave: p.slave, command: p.exponent_command, width: Width::Byte })
            } else {
                let width = match p.encoding {
                    Encoding::RawByte => Width::Byte,
                    _ => Width::Word,
                };
                Some(BusRead { slave: p.slave, command: p.command, width })
            }
        }
    }

    /// Hands the walk the outcome of the transaction it asked for: the
    /// contents read, or `None` where the bus failed. A failure, or contents
    /// of the wrong width, ends the cycle and leaves the samples as they were.
    /// Once the cycle is over, nothing changes.
    pub fn deliver(&mut self, reading: Option<Reading>)
        requires
            old(self)@.wf(),
        ensures
            final(self)@.wf(),
            final(self)@.table == old(self)@.table,
            old(self)@.finished() ==> final(self)@ == old(self)@,
            !old(self)@.finished() && (reading is None || !fits(
                reading->0,
                old(self)@.request()->0.width,
            )) ==> {
                &&& final(self)@.aborted
                &&& final(self)@.next == old(self)@.next
                &&& final(self)@.samples == old(self)@.samples
            },
            !old(self)@.finished() && reading is Some && fits(
                reading->0,
                old(self)@.request()->0.width,
            ) ==> {
                let p = old(self)@.table[old(self)@.next as int];
                &&& !final(self)@.aborted
                &&& if p.encoding == Encoding::Linear16Split && old(self)@.mantissa is None {
                    &&& final(self)@.next == old(self)@.next
                    &&& final(self)@.samples == old(self)@.samples
                    &&& final(self)@.mantissa == Some(reading->0->Word_0)
                } else {
                    &&& final(self)@.next == old(self)@.next + 1
                    &&& final(self)@.mantissa is None
                    &&& final(self)@.samples.len() == old(self)@.samples.len() + 1
                    &&& final(self)@.samples.drop_last() == old(self)@.samples
                    &&& final(self)@.samples.last().point == p
                    &&& completes(
                        p,
                        old(self)@.mantissa,
                        reading->0,
                        final(self)@.samples.last().value,
                    )
                }
            },
    {
        if self.aborted || self.next >= self.table.len() {
            return;
        }
        let p = self.table[self.next];
        let value = match (p.encoding, reading) {
            (Encoding::RawByte, Some(Reading::Byte(b))) => Value::Raw(b as u16),
            (Encoding::RawWord, Some(Reading::Word(w))) => Value::Raw(w),
            (Encoding::Linear11, Some(Reading::Word(w))) => Value::Linear(decode_linear11(w)),
            (Encoding::Linear16Split, Some(Reading::Word(w))) if self.mantissa.is_none() => {
                self.mantissa = Some(w);
                return;
            },
            (Encoding::Linear16Split, Some(Reading::Byte(b))) if self.mantissa.is_some() => {
                let m = self.mantissa.unwrap();
                Value::Linear(decode_linear16(m, b))
            },
            _ => {
                self.aborted = true;
                return;
            },
        };
        self.samples.push(Sample { point: p, value });
        self.next = self.next + 1;
        self.mantissa = None;
        assert(self.samples@.drop_last() =~= old(self).samples@);
    }

    /// Whether the cycle is over, completed or ended by a failure.
    pub fn is_finished(&self) -> (r: bool)
        ensures
            r == self@.finished(),
    {
        self.aborted || self.next >= self.table.len()
    }

    /// Whether a failed transaction ended the cycle.
    pub fn is_aborted(&self) -> (r: bool)
        ensures
            r == self@.aborted,
    {
        self.aborted
    }

    /// The samples recorded so far, in table order.
    pub fn samples(&self) -> (r: &Vec<Sample>)
        ensures
            r@ == self@.samples,
    {
        &self.samples
    }
}

/// A cycle over the measurement point table that ran to the end without a
/// failure has recorded exactly eighteen samples, one per point in table
/// order, and no two under the same label tuple.
pub proof fn lemma_full_cycle(w: WalkView)
    requires
        w.wf(),
        w.table == catalog(),
        w.finished(),
        !w.aborted,
    ensures
        w.samples.len() == 18,
        forall|i: int| 0 <= i < 18 ==> #[trigger] w.samples[i].point == catalog()[i],
        forall|i: int, j: int|
            0 <= i < j < 18 ==> #[trigger] w.samples[i].point.label_key()
                != #[trigger] w.samples[j].point.label_key(),
{
    lemma_catalog_labels_distinct();
    assert forall|i: int, j: int| 0 <= i < j < 18 implies #[trigger] w.samples[i].point.label_key()
        != #[trigger] w.samples[j].point.label_key() by {
        assert(w.samples[i].point == catalog()[i]);
        assert(w.samples[j].point == catalog()[j]);
    }
}

} // verus!
