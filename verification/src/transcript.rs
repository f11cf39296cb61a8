//! Assembly of a speaker-segmented transcript from the segments that the
//! inference engine emits.

use crate::error::PipelineError;
use vstd::prelude::*;

verus! {

/// One segment as the engine hands it out, not yet validated.
#[derive(Debug)]
pub struct EngineSegment {
    pub text: String,
    /// Start of the span, in the engine's time unit.
    pub start: i64,
    /// End of the span, in the engine's time unit.
    pub end: i64,
    /// Whether the next segment belongs to a new speaker.
    pub speaker_turn_next: bool,
}

/// The mathematical value of a segment: text, start, end, speaker-turn flag.
pub type SegmentModel = (Seq<char>, i64, i64, bool);

/// A validated span of transcribed text.
#[derive(Debug)]
pub struct TranscriptSegment {
    text: String,
    start_time: i64,
    end_time: i64,
    speaker_turn_after: bool,
}

/// An ordered run of segments with its flattened text. A transcript is made
/// once, by `assemble`, and not changed afterwards.
#[derive(Debug)]
pub struct Transcript {
    segments: Vec<TranscriptSegment>,
    text: String,
}

/// Whether `c` has the Unicode property White_Space.
pub open spec fn is_space(c: char) -> bool {
    let n = c as u32;
    ||| 0x09 <= n <= 0x0D
    ||| n == 0x20
    ||| n == 0x85
    ||| n == 0xA0
    ||| n == 0x1680
    ||| 0x2000 <= n <= 0x200A
    ||| n == 0x2028
    ||| n == 0x2029
    ||| n == 0x202F
    ||| n == 0x205F
    ||| n == 0x3000
}

/// Whether nothing is left of `text` after trimming.
pub open spec fn is_blank(text: Seq<char>) -> bool {
    forall|i: int| 0 <= i < text.len() ==> is_space(#[trigger] text[i])
}

/// Whether a segment may stand in a transcript: its text is not blank and
/// it does not end before it starts.
pub open spec fn well_formed(segment: SegmentModel) -> bool {
    !is_blank(segment.0) && segment.1 <= segment.2
}

/// The character that marks a speaker turn in the flattened text.
pub open spec fn turn_marker() -> char {
    '-'
}

/// The speaker-turn marker where a new speaker follows the segment, nothing
/// otherwise.
pub open spec fn marker(segment: SegmentModel) -> Seq<char> {
    if segment.3 {
        seq![turn_marker()]
    } else {
        Seq::<char>::empty()
    }
}

/// What a segment contributes to the flattened text when another segment
/// follows it: its text, the separating space, and its marker.
pub open spec fn followed(segment: SegmentModel) -> Seq<char> {
    segment.0 + seq![' '] + marker(segment)
}

/// What the last segment contributes to the flattened text: its text and its
/// marker, with no separator.
pub open spec fn closing(segment: SegmentModel) -> Seq<char> {
    segment.0 + marker(segment)
}

/// The text of a run of segments each of which is followed by another.
pub open spec fn leading(segments: Seq<SegmentModel>) -> Seq<char>
    decreases segments.len(),
{
    if segments.len() == 0 {
        Seq::<char>::empty()
    } else {
        leading(segments.drop_last()) + followed(segments.last())
    }
}

/// The flattened text of a run of segments: the texts joined by single
/// spaces, with the marker of a segment right after the space that follows
/// it, or at the very end for the last segment.
pub open spec fn flattened(segments: Seq<SegmentModel>) -> Seq<char> {
    if segments.len() == 0 {
        Seq::<char>::empty()
    } else {
        leading(segments.drop_last()) + closing(segments.last())
    }
}

/// How often `c` occurs in `text`.
pub open spec fn occurrences(text: Seq<char>, c: char) -> nat
    decreases text.len(),
{
    if text.len() == 0 {
        0
    } else {
        occurrences(text.drop_last(), c) + if text.last() == c {
            1nat
        } else {
            0nat
        }
    }
}

/// How many segments are flagged as followed by a new speaker.
pub open spec fn turns(segments: Seq<SegmentModel>) -> nat
    decreases segments.len(),
{
    if segments.len() == 0 {
        0
    } else {
        turns(segments.drop_last()) + if segments.last().3 {
            1nat
        } else {
            0nat
        }
    }
}

/// Whether the engine delivered a segment at all and it is well formed.
pub open spec fn usable(fetched: Option<EngineSegment>) -> bool {
    fetched is Some && well_formed(fetched->0@)
}

impl View for EngineSegment {
    type V = SegmentModel;

    open spec fn view(&self) -> SegmentModel {
        (self.text@, self.start, self.end, self.speaker_turn_next)
    }
}

impl View for TranscriptSegment {
    type V = SegmentModel;

    closed spec fn view(&self) -> SegmentModel {
        (self.text@, self.start_time, self.end_time, self.speaker_turn_after)
    }
}

impl View for Transcript {
    type V = Seq<SegmentModel>;

    closed spec fn view(&self) -> Seq<SegmentModel> {
        self.segments@.map_values(|s: TranscriptSegment| s@)
    }
}

/// Tells whether `c` is a white-space character.
pub fn char_is_space(c: char) -> (b: bool)
    ensures
        b == is_space(c),
{
    let n: u32 = c as u32;
    (0x09 <= n && n <= 0x0D) || n == 0x20 || n == 0x85 || n == 0xA0 || n == 0x1680 || (0x2000 <= n
        && n <= 0x200A) || n == 0x2028 || n == 0x2029 || n == 0x202F || n == 0x205F || n == 0x3000
}

/// Tells whether `text` is empty after trimming.
pub fn text_is_blank(text: &str) -> (b: bool)
    ensures
        b == is_blank(text@),
{
    let n: usize = text.unicode_len();
    let mut i: usize = 0;
    while i < n
        invariant
            n == text@.len(),
            0 <= i <= n,
            forall|k: int| 0 <= k < i ==> is_space(#[trigger] text@[k]),
        decreases n - i,
    {
        let c = text.get_char(i);
        if !char_is_space(c) {
            return false;
        }
        i += 1;
    }
    true
}

impl TranscriptSegment {
    /// The invariant of a segment.
    pub open spec fn wf(&self) -> bool {
        well_formed(self@)
    }

    /// Validates an engine segment: `None` for blank text or an end before
    /// the start.
    pub fn from_engine(segment: &EngineSegment) -> (r: Option<TranscriptSegment>)
        ensures
            well_formed(segment@) ==> r is Some && r->0@ == segment@,
            !well_formed(segment@) ==> r is None,
    {
        if segment.start > segment.end || text_is_blank(segment.text.as_str()) {
            None
        } else {
            Some(
                TranscriptSegment {
                    text: String::from_str(segment.text.as_str()),
                    start_time: segment.start,
                    end_time: segment.end,
                    speaker_turn_after: segment.speaker_turn_next,
                },
            )
        }
    }

    /// The transcribed text.
    pub fn text(&self) -> (t: &str)
        ensures
            t@ == self@.0,
    {
        self.text.as_str()
    }

    /// Start of the span.
    pub fn start_time(&self) -> (t: i64)
        ensures
            t == self@.1,
    {
        self.start_time
    }

    /// End of the span.
    pub fn end_time(&self) -> (t: i64)
        ensures
            t == self@.2,
    {
        self.end_time
    }

    /// Whether a new speaker begins right after this segment.
    pub fn speaker_turn_after(&self) -> (b: bool)
        ensures
            b == self@.3,
    {
        self.speaker_turn_after
    }
}

impl Transcript {
    /// The invariant of a transcript: every segment is well formed and the
    /// text is the flattening of the segments.
    pub closed spec fn wf(&self) -> bool {
        &&& forall|i: int| 0 <= i < self.segments@.len() ==> (#[trigger] self.segments@[i]).wf()
        &&& self.text@ == flattened(self@)
    }

    /// The flattened text as a sequence of characters.
    pub closed spec fn text_model(&self) -> Seq<char> {
        self.text@
    }

    /// In a well-formed transcript every segment is well formed and the text
    /// is the flattening of the segments.
    pub proof fn lemma_wf(&self)
        requires
            self.wf(),
        ensures
            self.text_model() == flattened(self@),
            forall|i: int| 0 <= i < self@.len() ==> well_formed(#[trigger] self@[i]),
    {
    }

    /// The transcript of the given segments, with its flattened text.
    pub(crate) fn from_segments(segments: Vec<TranscriptSegment>) -> (t: Transcript)
        requires
            forall|i: int| 0 <= i < segments@.len() ==> (#[trigger] segments@[i]).wf(),
        ensures
            t.wf(),
            t@ == segments@.map_values(|s: TranscriptSegment| s@),
            t.text_model() == flattened(t@),
    {
        let ghost models = segments@.map_values(|s: TranscriptSegment| s@);
        let mut text = String::new();
        let n: usize = segments.len();
        let mut i: usize = 0;
        while i < n
            invariant
                n == segments@.len(),
                0 <= i <= n,
                models == segments@.map_values(|s: TranscriptSegment| s@),
                i < n ==> text@ == leading(models.take(i as int)),
                i == n ==> text@ == flattened(models),
            decreases n - i,
        {
            let segment = &segments[i];
            text.append(segment.text.as_str());
            if i + 1 < n {
                text.append(" ");
            }
            if segment.speaker_turn_after {
                text.append("-");
            }
            proof {
                reveal_strlit(" ");
                reveal_strlit("-");
                assert(models.take(i + 1).drop_last() =~= models.take(i as int));
            }
            i += 1;
        }
        Transcript { segments, text }
    }

    /// The number of segments.
    pub fn len(&self) -> (n: usize)
        ensures
            n == self@.len(),
    {
        self.segments.len()
    }

    /// The segment at `index`, in emission order.
    pub fn segment(&self, index: usize) -> (s: Option<&TranscriptSegment>)
        ensures
            index < self@.len() ==> s is Some && s->0@ == self@[index as int],
            index >= self@.len() ==> s is None,
    {
        if index < self.segments.len() {
            Some(&self.segments[index])
        } else {
            None
        }
    }

    /// The flattened text.
    pub fn text(&self) -> (t: &str)
        ensures
            t@ == self.text_model(),
    {
        self.text.as_str()
    }
}

/// The models of the delivered segments, in order.
pub open spec fn delivered(fetched: Seq<Option<EngineSegment>>) -> Seq<SegmentModel> {
    fetched.map_values(|f: Option<EngineSegment>| f->0@)
}

/// One segment alone is flattened to its text, with the marker behind it
/// where a new speaker follows, and no separator.
pub proof fn lemma_single_segment(segment: SegmentModel)
    ensures
        flattened(seq![segment]) == closing(segment),
        !segment.3 ==> flattened(seq![segment]) == segment.0,
{
}

/// The leading text of two runs in a row is the leading text of the first
/// followed by that of the second.
pub proof fn lemma_leading_concat(first: Seq<SegmentModel>, second: Seq<SegmentModel>)
    ensures
        leading(first + second) == leading(first) + leading(second),
    decreases second.len(),
{
    if second.len() > 0 {
        lemma_leading_concat(first, second.drop_last());
        assert((first + second).drop_last() =~= first + second.drop_last());
    }
}

/// Where every segment stands in the flattened text: before the segment at
/// `index` stand the earlier segments, each with its separator and marker;
/// then its text; then, if it is the last, its marker and nothing more,
/// else the separating space, its marker, and the flattened text of the
/// segments after it. So a marker stands after the text of a flagged segment
/// and before the text of the segment that follows it, and nowhere else
/// between the texts.
pub proof fn lemma_segment_place(segments: Seq<SegmentModel>, index: int)
    requires
        0 <= index < segments.len(),
    ensures
        flattened(segments) == leading(segments.take(index)) + if index + 1 == segments.len() {
            closing(segments[index])
        } else {
            followed(segments[index]) + flattened(segments.skip(index + 1))
        },
{
    let before = segments.take(index);
    let here = segments[index];
    let after = segments.skip(index + 1);
    if index + 1 < segments.len() {
        assert(segments.drop_last() =~= (before + seq![here]) + after.drop_last());
        lemma_leading_concat(before + seq![here], after.drop_last());
        lemma_leading_concat(before, seq![here]);
        assert(seq![here].drop_last() =~= Seq::<SegmentModel>::empty());
        assert(leading(Seq::<SegmentModel>::empty()) =~= Seq::<char>::empty());
    }
}

/// Occurrences add up over two texts in a row.
pub proof fn lemma_occurrences_concat(first: Seq<char>, second: Seq<char>, c: char)
    ensures
        occurrences(first + second, c) == occurrences(first, c) + occurrences(second, c),
    decreases second.len(),
{
    if second.len() > 0 {
        lemma_occurrences_concat(first, second.drop_last(), c);
        assert((first + second).drop_last() =~= first + second.drop_last());
    }
}

/// What one segment adds to the count of markers, where its own text holds
/// none: one if it is flagged, nothing otherwise, with or without the
/// separator.
pub proof fn lemma_marker_marks_the_turn(segment: SegmentModel)
    requires
        occurrences(segment.0, turn_marker()) == 0,
    ensures
        occurrences(followed(segment), turn_marker()) == if segment.3 {
            1nat
        } else {
            0nat
        },
        occurrences(closing(segment), turn_marker()) == if segment.3 {
            1nat
        } else {
            0nat
        },
{
    let m = turn_marker();
    let space = seq![' '];
    let none = Seq::<char>::empty();
    assert(occurrences(none, m) == 0);
    assert(space.drop_last() =~= none);
    assert(occurrences(marker(segment), m) == if segment.3 { 1nat } else { 0nat }) by {
        if segment.3 {
            assert(marker(segment).drop_last() =~= none);
        }
    }
    lemma_occurrences_concat(segment.0, space, m);
    lemma_occurrences_concat(segment.0 + space, marker(segment), m);
    lemma_occurrences_concat(segment.0, marker(segment), m);
}

/// Where no segment's text holds the marker character, the leading text of a
/// run holds exactly one marker for each flagged segment.
pub proof fn lemma_leading_marker_count(segments: Seq<SegmentModel>)
    requires
        forall|i: int|
            0 <= i < segments.len() ==> occurrences((#[trigger] segments[i]).0, turn_marker())
                == 0,
    ensures
        occurrences(leading(segments), turn_marker()) == turns(segments),
    decreases segments.len(),
{
    if segments.len() > 0 {
        lemma_leading_marker_count(segments.drop_last());
        lemma_marker_marks_the_turn(segments.last());
        lemma_occurrences_concat(
            leading(segments.drop_last()),
            followed(segments.last()),
            turn_marker(),
        );
    }
}

/// Where no segment's text holds the marker character, the flattened text
/// holds exactly as many markers as segments are flagged.
pub proof fn lemma_marker_count(segments: Seq<SegmentModel>)
    requires
        forall|i: int|
            0 <= i < segments.len() ==> occurrences((#[trigger] segments[i]).0, turn_marker())
                == 0,
    ensures
        occurrences(flattened(segments), turn_marker()) == turns(segments),
{
    if segments.len() > 0 {
        lemma_leading_marker_count(segments.drop_last());
        lemma_marker_marks_the_turn(segments.last());
        lemma_occurrences_concat(
            leading(segments.drop_last()),
            closing(segments.last()),
            turn_marker(),
        );
    }
}

/// Builds the transcript from what the engine delivered for each segment
/// index, in order.
///
/// A segment counts as retrieved only if it can stand in a transcript: one
/// that is missing, has blank text or ends before it starts fails the whole
/// transcription with `PipelineError::Inference`. Otherwise the transcript
/// holds every segment in emission order, with text, times and flag as the
/// engine gave them.
pub fn assemble(fetched: &Vec<Option<EngineSegment>>) -> (r: Result<Transcript, PipelineError>)
    ensures
        (forall|i: int| 0 <= i < fetched@.len() ==> usable(#[trigger] fetched@[i])) ==> r is Ok
            && r->Ok_0.wf() && r->Ok_0@ == delivered(fetched@) && r->Ok_0.text_model()
            == flattened(delivered(fetched@)),
        (exists|i: int| 0 <= i < fetched@.len() && !usable(#[trigger] fetched@[i])) ==> r is Err
            && r->Err_0 == PipelineError::Inference,
{
    let mut segments: Vec<TranscriptSegment> = Vec::new();
    let ghost all = fetched@;
    let n: usize = fetched.len();
    let mut i: usize = 0;
    while i < n
        invariant
            all == fetched@,
            n == all.len(),
            0 <= i <= n,
            forall|k: int| 0 <= k < segments@.len() ==> (#[trigger] segments@[k]).wf(),
            segments@.map_values(|s: TranscriptSegment| s@) == delivered(all.take(i as int)),
            forall|k: int| 0 <= k < i ==> usable(#[trigger] all[k]),
        decreases n - i,
    {
        let valid = match &fetched[i] {
            Some(segment) => TranscriptSegment::from_engine(segment),
            None => None,
        };
        match valid {
            Some(segment) => {
                let ghost before = segments@;
                segments.push(segment);
                assert(segments@.map_values(|s: TranscriptSegment| s@) =~= before.map_values(
                    |s: TranscriptSegment| s@,
                ).push(segment@));
                assert(delivered(all.take(i + 1)) =~= delivered(all.take(i as int)).push(
                    all[i as int]->0@,
                ));
            },
            None => {
                return Err(PipelineError::Inference);
            },
        }
        i += 1;
    }
    Ok(Transcript::from_segments(segments))
}

} // verus!
