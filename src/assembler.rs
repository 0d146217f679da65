//! Merging parsed records into contiguous runs of instruction words.
use vstd::prelude::*;
use crate::record::{dump_of, dump_pairs, Record, RecordType, RecordView, MAX_PAIRS};

verus! {

/// A maximal stretch of same-type records whose addresses follow each other,
/// seen as 16-bit instruction words.
pub struct RecordRun {
    pub base_address: u16,
    pub record_type: RecordType,
    pub words: Vec<u16>,
}

pub struct RunView {
    pub base_address: u16,
    pub record_type: RecordType,
    pub words: Seq<u16>,
}

impl View for RecordRun {
    type V = RunView;

    open spec fn view(&self) -> RunView {
        RunView { base_address: self.base_address, record_type: self.record_type, words: self.words@ }
    }
}

/// The word a payload pair stands for.
pub open spec fn word_of(p: (u8, u8)) -> u16 {
    (p.0 as nat * 256 + p.1 as nat) as u16
}

/// The words of a payload, in order.
pub open spec fn words_of(data: Seq<(u8, u8)>) -> Seq<u16> {
    data.map_values(|p: (u8, u8)| word_of(p))
}

/// The byte address just past the last word of a run.
pub open spec fn run_end(r: RunView) -> int {
    r.base_address + 2 * r.words.len()
}

/// A run's words all lie below the end of the address space plus one record.
pub open spec fn run_fits(r: RunView) -> bool {
    run_end(r) <= 0x10000 + 2 * MAX_PAIRS
}

/// A record continues a run: same type, and it starts where the run ends.
pub open spec fn continues(run: RunView, rec: RecordView) -> bool {
    run.record_type == rec.record_type && run_end(run) == rec.address as int
}

/// The run that one record starts.
pub open spec fn run_of(rec: RecordView) -> RunView {
    RunView { base_address: rec.address, record_type: rec.record_type, words: words_of(rec.data) }
}

/// The runs that a sequence of records, taken in order, assembles into.
pub open spec fn assemble_spec(recs: Seq<RecordView>) -> Seq<RunView>
    decreases recs.len(),
{
    if recs.len() == 0 {
        seq![]
    } else {
        let runs = assemble_spec(recs.drop_last());
        let rec = recs.last();
        if runs.len() > 0 && continues(runs.last(), rec) {
            runs.update(
                runs.len() - 1,
                RunView { words: runs.last().words + words_of(rec.data), ..runs.last() },
            )
        } else {
            runs.push(run_of(rec))
        }
    }
}

pub open spec fn records_view(records: Seq<Record>) -> Seq<RecordView> {
    records.map_values(|r: Record| r@)
}

pub open spec fn runs_view(runs: Seq<RecordRun>) -> Seq<RunView> {
    runs.map_values(|r: RecordRun| r@)
}

/// Two records assemble into one run when the second has the first's type and
/// starts where the first ends, and into two runs otherwise.
pub proof fn lemma_two_records(a: RecordView, b: RecordView)
    ensures
        assemble_spec(seq![a, b]).len() == (if b.address as int == a.address as int + 2
            * a.data.len() && a.record_type == b.record_type {
            1int
        } else {
            2int
        }),
{
    let s = seq![a, b];
    assert(s.drop_last() =~= seq![a]);
    assert(seq![a].drop_last() =~= Seq::<RecordView>::empty());
    assert(assemble_spec(Seq::<RecordView>::empty()) =~= Seq::<RunView>::empty());
    assert(seq![a].last() == a);
    let first = assemble_spec(seq![a]);
    assert(first =~= seq![run_of(a)]);
    assert(s.last() == b);
    assert(words_of(a.data).len() == a.data.len());
}

/// The words of all runs, run after run.
pub open spec fn run_words(runs: Seq<RunView>) -> Seq<u16>
    decreases runs.len(),
{
    if runs.len() == 0 {
        seq![]
    } else {
        run_words(runs.drop_last()) + runs.last().words
    }
}

/// The words of all records' payloads, record after record.
pub open spec fn record_words(recs: Seq<RecordView>) -> Seq<u16>
    decreases recs.len(),
{
    if recs.len() == 0 {
        seq![]
    } else {
        record_words(recs.drop_last()) + words_of(recs.last().data)
    }
}

/// Assembling keeps every word and its order: read run after run, the runs
/// hold exactly the records' words, record after record.
pub proof fn lemma_assemble_keeps_words(recs: Seq<RecordView>)
    ensures
        run_words(assemble_spec(recs)) == record_words(recs),
    decreases recs.len(),
{
    if recs.len() > 0 {
        lemma_assemble_keeps_words(recs.drop_last());
        let runs = assemble_spec(recs.drop_last());
        let rec = recs.last();
        if runs.len() > 0 && continues(runs.last(), rec) {
            let merged = runs.update(
                runs.len() - 1,
                RunView { words: runs.last().words + words_of(rec.data), ..runs.last() },
            );
            assert(merged.drop_last() =~= runs.drop_last());
            assert(run_words(merged) =~= run_words(runs) + words_of(rec.data));
        } else {
            assert(runs.push(run_of(rec)).drop_last() =~= runs);
        }
    }
}

/// The pair a word is dumped as: its high byte, then its low byte.
pub open spec fn pair_of(w: u16) -> (u8, u8) {
    ((w / 256) as u8, (w % 256) as u8)
}

impl RecordRun {
    /// The diagnostic dump of this run, laid out as the dump of one record
    /// holding all of the run's words.
    pub fn dump(&self) -> (r: String)
        ensures
            r@ == dump_of(
                self.base_address,
                self.record_type,
                self.words@.map_values(|w: u16| pair_of(w)),
            ),
    {
        let mut pairs: Vec<(u8, u8)> = Vec::new();
        let mut k: usize = 0;
        while k < self.words.len()
            invariant
                k <= self.words@.len(),
                pairs@ =~= self.words@.subrange(0, k as int).map_values(|w: u16| pair_of(w)),
            decreases self.words@.len() - k,
        {
            let w = self.words[k];
            pairs.push(((w / 256) as u8, (w % 256) as u8));
            k = k + 1;
        }
        assert(self.words@.subrange(0, k as int) =~= self.words@);
        dump_pairs(self.base_address, self.record_type, &pairs)
    }
}

/// Appends the words of a payload to `words`.
fn push_words(words: &mut Vec<u16>, data: &Vec<(u8, u8)>)
    ensures
        final(words)@ == old(words)@ + words_of(data@),
{
    let mut k: usize = 0;
    while k < data.len()
        invariant
            k <= data@.len(),
            words@ == old(words)@ + words_of(data@.subrange(0, k as int)),
        decreases data@.len() - k,
    {
        let p = data[k];
        words.push(p.0 as u16 * 256 + p.1 as u16);
        assert(words_of(data@.subrange(0, k + 1)) =~= words_of(data@.subrange(0, k as int)).push(
            word_of(p),
        ));
        k = k + 1;
    }
    assert(data@.subrange(0, k as int) =~= data@);
}

/// Merges records, in the order given, into runs: a record joins the run
/// before it when it has the run's type and starts at the run's end, and starts
/// a new run otherwise.
pub fn assemble(records: &Vec<Record>) -> (runs: Vec<RecordRun>)
    requires
        forall|i: int| 0 <= i < records@.len() ==> (#[trigger] records@[i])@.wf(),
    ensures
        runs_view(runs@) == assemble_spec(records_view(records@)),
        forall|i: int| 0 <= i < runs@.len() ==> run_fits(#[trigger] runs@[i]@),
{
    let mut runs: Vec<RecordRun> = Vec::new();
    let mut i: usize = 0;
    while i < records.len()
        invariant
            i <= records@.len(),
            forall|j: int| 0 <= j < records@.len() ==> (#[trigger] records@[j])@.wf(),
            runs_view(runs@) == assemble_spec(records_view(records@.subrange(0, i as int))),
            forall|j: int| 0 <= j < runs@.len() ==> run_fits(#[trigger] runs@[j]@),
        decreases records@.len() - i,
    {
        let rec = &records[i];
        let ghost prefix = records_view(records@.subrange(0, i as int));
        let ghost next = records_view(records@.subrange(0, i + 1));
        assert(next.drop_last() =~= prefix);
        assert(next.last() == rec@);
        let joined = if runs.len() > 0 {
            let last = &runs[runs.len() - 1];
            assert(run_fits(runs@[runs@.len() - 1]@));
            last.record_type == rec.record_type && last.base_address as u32 + 2
                * last.words.len() as u32 == rec.address as u32
        } else {
            false
        };
        if joined {
            let ghost before = runs_view(runs@);
            let mut last = runs.pop().unwrap();
            assert(before.last() == last@);
            push_words(&mut last.words, &rec.data);
            runs.push(last);
            assert(runs_view(runs@) =~= before.update(
                before.len() - 1,
                RunView { words: before.last().words + words_of(rec@.data), ..before.last() },
            ));
        } else {
            let mut words: Vec<u16> = Vec::new();
            push_words(&mut words, &rec.data);
            let ghost before = runs_view(runs@);
            runs.push(RecordRun { base_address: rec.address, record_type: rec.record_type, words });
            assert(runs_view(runs@) =~= before.push(run_of(rec@)));
        }
        i = i + 1;
    }
    assert(records@.subrange(0, i as int) =~= records@);
    runs
}

} // verus!
