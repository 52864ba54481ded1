use vstd::prelude::*;
use vstd::string::*;

verus! {

/// The two operating modes of the guide, chosen by the mode switch.
#[derive(Debug, PartialEq, Eq, Structural, Clone, Copy)]
pub enum Mode {
    Interactive,
    Qna,
}

/// A question-and-answer exhibit: a question is played, the visitor answers
/// with a button, and the correct or the wrong answer is played back.
#[derive(Debug)]
pub struct QnaEntry {
    pub name: String,
    pub question: String,
    pub led: usize,
    pub button: usize,
    pub correct_answer: String,
    pub wrong_answer: String,
}

/// An interactive exhibit: pressing its button plays its recordings.
#[derive(Debug)]
pub struct InteractiveEntry {
    pub name: String,
    pub interactive: Vec<String>,
    pub led: usize,
    pub button: usize,
}

/// The exhibits of both modes.
#[derive(Debug)]
pub struct Config {
    pub qna: Vec<QnaEntry>,
    pub interactive: Vec<InteractiveEntry>,
}

/// A question-and-answer exhibit as plain values.
pub struct QnaEntryView {
    pub name: Seq<char>,
    pub question: Seq<char>,
    pub led: usize,
    pub button: usize,
    pub correct_answer: Seq<char>,
    pub wrong_answer: Seq<char>,
}

/// An interactive exhibit as plain values.
pub struct InteractiveEntryView {
    pub name: Seq<char>,
    pub interactive: Seq<Seq<char>>,
    pub led: usize,
    pub button: usize,
}

/// A configuration as plain values.
pub struct ConfigView {
    pub qna: Seq<QnaEntryView>,
    pub interactive: Seq<InteractiveEntryView>,
}

impl View for QnaEntry {
    type V = QnaEntryView;

    open spec fn view(&self) -> QnaEntryView {
        QnaEntryView {
            name: self.name@,
            question: self.question@,
            led: self.led,
            button: self.button,
            correct_answer: self.correct_answer@,
            wrong_answer: self.wrong_answer@,
        }
    }
}

impl View for InteractiveEntry {
    type V = InteractiveEntryView;

    open spec fn view(&self) -> InteractiveEntryView {
        InteractiveEntryView {
            name: self.name@,
            interactive: self.interactive@.map_values(|s: String| s@),
            led: self.led,
            button: self.button,
        }
    }
}

impl View for Config {
    type V = ConfigView;

    open spec fn view(&self) -> ConfigView {
        ConfigView {
            qna: self.qna@.map_values(|e: QnaEntry| e@),
            interactive: self.interactive@.map_values(|e: InteractiveEntry| e@),
        }
    }
}

/// Name of the recording announced when the guide enters `mode`.
pub open spec fn spec_mode_recording(mode: Mode) -> Seq<char> {
    match mode {
        Mode::Interactive => "activate_interactive.mp3"@,
        Mode::Qna => "activate_qna.mp3"@,
    }
}

/// The recording that announces `mode`.
pub fn mode_recording(mode: &Mode) -> (name: &'static str)
    ensures
        name@ == spec_mode_recording(*mode),
{
    match mode {
        Mode::Interactive => "activate_interactive.mp3",
        Mode::Qna => "activate_qna.mp3",
    }
}

/// The question-and-answer exhibits that the guide ships with.
pub open spec fn spec_default_qna() -> Seq<QnaEntryView> {
    seq![
        QnaEntryView {
            name: "1"@,
            question: "question_1.mp3"@,
            led: 0,
            button: 0,
            correct_answer: "correct_answer_for_1.mp3"@,
            wrong_answer: "wrong_answer_1.mp3"@,
        },
        QnaEntryView {
            name: "2"@,
            question: "question_2.mp3"@,
            led: 1,
            button: 1,
            correct_answer: "correct_answer_for_2.mp3"@,
            wrong_answer: "wrong_answer_2.mp3"@,
        },
        QnaEntryView {
            name: "3"@,
            question: "question_3.mp3"@,
            led: 2,
            button: 2,
            correct_answer: "correct_answer_for_3.mp3"@,
            wrong_answer: "wrong_answer_3.mp3"@,
        },
    ]
}

/// The interactive exhibits that the guide ships with.
pub open spec fn spec_default_interactive() -> Seq<InteractiveEntryView> {
    seq![
        InteractiveEntryView {
            name: "cerebrum"@,
            interactive: seq!["cerebrum.mp3"@],
            led: 0,
            button: 0,
        },
        InteractiveEntryView {
            name: "medulla"@,
            interactive: seq!["medulla.mp3"@],
            led: 1,
            button: 1,
        },
        InteractiveEntryView {
            name: "hindbrain"@,
            interactive: seq!["hindbrain_1.mp3"@, "hindbrain_2.mp3"@],
            led: 2,
            button: 2,
        },
    ]
}

/// The configuration that the guide ships with.
pub open spec fn spec_default_config() -> ConfigView {
    ConfigView { qna: spec_default_qna(), interactive: spec_default_interactive() }
}

fn qna_entry(
    name: &str,
    question: &str,
    led: usize,
    button: usize,
    correct_answer: &str,
    wrong_answer: &str,
) -> (e: QnaEntry)
    ensures
        e@ == (QnaEntryView {
            name: name@,
            question: question@,
            led,
            button,
            correct_answer: correct_answer@,
            wrong_answer: wrong_answer@,
        }),
{
    QnaEntry {
        name: String::from_str(name),
        question: String::from_str(question),
        led,
        button,
        correct_answer: String::from_str(correct_answer),
        wrong_answer: String::from_str(wrong_answer),
    }
}

/// The configuration that the guide ships with: three question-and-answer
/// exhibits and three interactive ones.
pub fn default_config() -> (config: Config)
    ensures
        config@ == spec_default_config(),
        config.qna@.len() == 3,
        config.interactive@.len() == 3,
        forall|i: int| 0 <= i < 3 ==> #[trigger] config.qna@[i].led == i && config.qna@[i].button == i,
        forall|i: int|
            0 <= i < 3 ==> #[trigger] config.interactive@[i].led == i && config.interactive@[i].button == i,
{
    let qna = vec![
        qna_entry("1", "question_1.mp3", 0, 0, "correct_answer_for_1.mp3", "wrong_answer_1.mp3"),
        qna_entry("2", "question_2.mp3", 1, 1, "correct_answer_for_2.mp3", "wrong_answer_2.mp3"),
        qna_entry("3", "question_3.mp3", 2, 2, "correct_answer_for_3.mp3", "wrong_answer_3.mp3"),
    ];
    let interactive = vec![
        InteractiveEntry {
            name: String::from_str("cerebrum"),
            interactive: vec![String::from_str("cerebrum.mp3")],
            led: 0,
            button: 0,
        },
        InteractiveEntry {
            name: String::from_str("medulla"),
            interactive: vec![String::from_str("medulla.mp3")],
            led: 1,
            button: 1,
        },
        InteractiveEntry {
            name: String::from_str("hindbrain"),
            interactive: vec![String::from_str("hindbrain_1.mp3"), String::from_str("hindbrain_2.mp3")],
            led: 2,
            button: 2,
        },
    ];
    let config = Config { qna, interactive };
    assert(config@.qna =~= spec_default_qna());
    assert(config.interactive@[0]@.interactive =~= seq!["cerebrum.mp3"@]);
    assert(config.interactive@[1]@.interactive =~= seq!["medulla.mp3"@]);
    assert(config.interactive@[2]@.interactive =~= seq!["hindbrain_1.mp3"@, "hindbrain_2.mp3"@]);
    assert(config@.interactive =~= spec_default_interactive());
    config
}

/// The names of the recordings that the guide ships with, in the order in
/// which their contents are supplied.
pub open spec fn spec_default_recording_names() -> Seq<Seq<char>> {
    seq![
        "activate_interactive.mp3"@,
        "activate_qna.mp3"@,
        "question_1.mp3"@,
        "correct_answer_for_1.mp3"@,
        "wrong_answer_1.mp3"@,
        "question_2.mp3"@,
        "correct_answer_for_2.mp3"@,
        "wrong_answer_2.mp3"@,
        "question_3.mp3"@,
        "correct_answer_for_3.mp3"@,
        "wrong_answer_3.mp3"@,
    ]
}

/// The names of a list of recordings.
pub open spec fn recording_names(recordings: Seq<(String, &'static [u8])>) -> Seq<Seq<char>> {
    recordings.map_values(|r: (String, &'static [u8])| r.0@)
}

/// Pairs the recordings that the guide ships with with their contents:
/// `contents[i]` is the content of the `i`-th name of
/// `spec_default_recording_names`.
pub fn default_recordings(contents: Vec<&'static [u8]>) -> (recordings: Vec<(String, &'static [u8])>)
    requires
        contents.len() == spec_default_recording_names().len(),
    ensures
        recordings.len() == contents.len(),
        recording_names(recordings@) == spec_default_recording_names(),
        forall|i: int| 0 <= i < recordings.len() ==> #[trigger] recordings@[i].1 == contents@[i],
{
    let names = vec![
        "activate_interactive.mp3",
        "activate_qna.mp3",
        "question_1.mp3",
        "correct_answer_for_1.mp3",
        "wrong_answer_1.mp3",
        "question_2.mp3",
        "correct_answer_for_2.mp3",
        "wrong_answer_2.mp3",
        "question_3.mp3",
        "correct_answer_for_3.mp3",
        "wrong_answer_3.mp3",
    ];
    assert(names@.map_values(|n: &str| n@) =~= spec_default_recording_names());
    let mut recordings: Vec<(String, &'static [u8])> = Vec::new();
    let mut i: usize = 0;
    while i < names.len()
        invariant
            names.len() == contents.len(),
            names@.map_values(|n: &str| n@) == spec_default_recording_names(),
            i <= names.len(),
            recordings.len() == i,
            forall|j: int| 0 <= j < i ==> #[trigger] recordings@[j].0@ == names@[j]@,
            forall|j: int| 0 <= j < i ==> #[trigger] recordings@[j].1 == contents@[j],
        decreases names.len() - i,
    {
        recordings.push((String::from_str(names[i]), contents[i]));
        i = i + 1;
    }
    assert(recording_names(recordings@) =~= spec_default_recording_names()) by {
        assert forall|j: int| 0 <= j < recordings.len() implies recording_names(recordings@)[j]
            == spec_default_recording_names()[j] by {
            assert(names@.map_values(|n: &str| n@)[j] == names@[j]@);
        }
    }
    recordings
}

/// The contents of the first recording named `name`, if there is one.
pub open spec fn spec_find_recording(recordings: Seq<(String, &'static [u8])>, name: Seq<char>) -> Option<
    &'static [u8],
>
    decreases recordings.len(),
{
    if recordings.len() == 0 {
        None
    } else if recordings[0].0@ == name {
        Some(recordings[0].1)
    } else {
        spec_find_recording(recordings.drop_first(), name)
    }
}

/// Looks a recording up by name; the first one of that name wins.
pub fn find_recording(recordings: &Vec<(String, &'static [u8])>, name: &str) -> (found: Option<
    &'static [u8],
>)
    ensures
        found == spec_find_recording(recordings@, name@),
        found is Some <==> recording_names(recordings@).contains(name@),
        found matches Some(data) ==> exists|i: int|
            0 <= i < recordings@.len() && #[trigger] recordings@[i].0@ == name@ && recordings@[i].1 == data
                && forall|j: int| 0 <= j < i ==> #[trigger] recordings@[j].0@ != name@,
{
    let key = String::from_str(name);
    let mut i: usize = 0;
    assert(recordings@.skip(0) =~= recordings@);
    while i < recordings.len()
        invariant
            key@ == name@,
            i <= recordings.len(),
            spec_find_recording(recordings@, name@) == spec_find_recording(recordings@.skip(i as int), name@),
            forall|j: int| 0 <= j < i ==> #[trigger] recordings@[j].0@ != name@,
        decreases recordings.len() - i,
    {
        assert(recordings@.skip(i as int).drop_first() =~= recordings@.skip(i + 1));
        if recordings[i].0 == key {
            proof {
                assert(recording_names(recordings@)[i as int] == name@);
                assert(recordings@[i as int].0@ == name@);
            }
            return Some(recordings[i].1);
        }
        i = i + 1;
    }
    assert(recordings@.skip(i as int).len() == 0);
    proof {
        if recording_names(recordings@).contains(name@) {
            let j = choose|j: int| 0 <= j < recording_names(recordings@).len() && recording_names(recordings@)[j] == name@;
            assert(recordings@[j].0@ == name@);
        }
    }
    None
}

/// The recordings that `config` plays, in the order in which they are
/// checked: the recordings of each interactive exhibit, then the question,
/// correct answer and wrong answer of each question-and-answer exhibit.
pub open spec fn required_recordings(config: ConfigView) -> Seq<Seq<char>> {
    interactive_recordings(config.interactive) + qna_recordings(config.qna)
}

/// All recordings of a list of interactive exhibits, in order.
pub open spec fn interactive_recordings(entries: Seq<InteractiveEntryView>) -> Seq<Seq<char>>
    decreases entries.len(),
{
    if entries.len() == 0 {
        seq![]
    } else {
        interactive_recordings(entries.drop_last()) + entries.last().interactive
    }
}

/// The question, correct answer and wrong answer of each exhibit, in order.
pub open spec fn qna_recordings(entries: Seq<QnaEntryView>) -> Seq<Seq<char>>
    decreases entries.len(),
{
    if entries.len() == 0 {
        seq![]
    } else {
        let e = entries.last();
        qna_recordings(entries.drop_last()) + seq![e.question, e.correct_answer, e.wrong_answer]
    }
}

/// The first of `required` that is not among `names`.
pub open spec fn first_missing(required: Seq<Seq<char>>, names: Seq<Seq<char>>) -> Option<Seq<char>>
    decreases required.len(),
{
    if required.len() == 0 {
        None
    } else if !names.contains(required[0]) {
        Some(required[0])
    } else {
        first_missing(required.drop_first(), names)
    }
}

/// The views of a list of names.
pub open spec fn names_view(names: Seq<String>) -> Seq<Seq<char>> {
    names.map_values(|n: String| n@)
}

/// Whether some recording is named `name`.
pub fn has_recording(recordings: &Vec<(String, &'static [u8])>, name: &String) -> (found: bool)
    ensures
        found == recording_names(recordings@).contains(name@),
{
    let mut i: usize = 0;
    while i < recordings.len()
        invariant
            i <= recordings.len(),
            forall|j: int| 0 <= j < i ==> #[trigger] recordings@[j].0@ != name@,
        decreases recordings.len() - i,
    {
        if recordings[i].0 == *name {
            assert(recording_names(recordings@)[i as int] == name@);
            return true;
        }
        i = i + 1;
    }
    proof {
        if recording_names(recordings@).contains(name@) {
            let j = choose|j: int|
                0 <= j < recording_names(recordings@).len() && recording_names(recordings@)[j] == name@;
            assert(recordings@[j].0@ == name@);
        }
    }
    false
}

fn append_names(out: &mut Vec<String>, names: &Vec<String>)
    ensures
        names_view(final(out)@) == names_view(old(out)@) + names_view(names@),
{
    let ghost start = names_view(out@);
    let mut j: usize = 0;
    while j < names.len()
        invariant
            j <= names.len(),
            names_view(out@) == start + names_view(names@).take(j as int),
        decreases names.len() - j,
    {
        let ghost before = names_view(out@);
        out.push(names[j].clone());
        assert(names_view(out@) =~= before.push(names[j as int]@));
        assert(names_view(names@).take(j + 1) =~= names_view(names@).take(j as int).push(names[j as int]@));
        j = j + 1;
    }
    assert(names_view(names@).take(j as int) =~= names_view(names@));
}

/// The recordings that `config` plays, in checking order.
pub fn config_recordings(config: &Config) -> (names: Vec<String>)
    ensures
        names_view(names@) == required_recordings(config@),
{
    let mut names: Vec<String> = Vec::new();
    let mut i: usize = 0;
    assert(config@.interactive.take(0) =~= Seq::<InteractiveEntryView>::empty());
    while i < config.interactive.len()
        invariant
            i <= config.interactive.len(),
            names_view(names@) == interactive_recordings(config@.interactive.take(i as int)),
        decreases config.interactive.len() - i,
    {
        append_names(&mut names, &config.interactive[i].interactive);
        assert(config@.interactive.take(i + 1).drop_last() =~= config@.interactive.take(i as int));
        assert(config@.interactive[i as int].interactive =~= names_view(config.interactive@[i as int].interactive@));
        i = i + 1;
    }
    assert(config@.interactive.take(i as int) =~= config@.interactive);
    let ghost head = names_view(names@);
    let mut k: usize = 0;
    assert(config@.qna.take(0) =~= Seq::<QnaEntryView>::empty());
    assert(head + qna_recordings(config@.qna.take(0)) =~= head);
    while k < config.qna.len()
        invariant
            k <= config.qna.len(),
            head == interactive_recordings(config@.interactive),
            names_view(names@) == head + qna_recordings(config@.qna.take(k as int)),
        decreases config.qna.len() - k,
    {
        let e = &config.qna[k];
        let ghost before = names_view(names@);
        names.push(e.question.clone());
        names.push(e.correct_answer.clone());
        names.push(e.wrong_answer.clone());
        assert(config@.qna.take(k + 1).drop_last() =~= config@.qna.take(k as int));
        assert(names_view(names@) =~= before + seq![e.question@, e.correct_answer@, e.wrong_answer@]);
        k = k + 1;
    }
    assert(config@.qna.take(k as int) =~= config@.qna);
    names
}

/// The first recording that `config` plays and that `recordings` lacks, if
/// there is one, in the order of `required_recordings`.
pub fn find_missing_recording(config: &Config, recordings: &Vec<(String, &'static [u8])>) -> (missing:
    Option<String>)
    ensures
        match missing {
            Some(name) => first_missing(required_recordings(config@), recording_names(recordings@))
                == Some(name@),
            None => first_missing(required_recordings(config@), recording_names(recordings@))
                is None,
        },
{
    let required = config_recordings(config);
    let ghost names = recording_names(recordings@);
    let mut i: usize = 0;
    assert(names_view(required@).skip(0) =~= names_view(required@));
    while i < required.len()
        invariant
            i <= required.len(),
            names_view(required@) == required_recordings(config@),
            names == recording_names(recordings@),
            first_missing(names_view(required@), names) == first_missing(
                names_view(required@).skip(i as int),
                names,
            ),
        decreases required.len() - i,
    {
        let ghost rest = names_view(required@).skip(i as int);
        assert(rest.drop_first() =~= names_view(required@).skip(i + 1));
        assert(rest[0] == required@[i as int]@);
        if !has_recording(recordings, &required[i]) {
            return Some(required[i].clone());
        }
        i = i + 1;
    }
    None
}

} // verus!

verus! {

/// Every question, correct answer and wrong answer of the shipped
/// configuration is among the shipped recordings, but the recordings of its
/// interactive exhibits are not: the first recording that the shipped
/// configuration needs and the shipped recordings lack is "cerebrum.mp3".
pub proof fn lemma_default_recordings_coverage()
    ensures
        forall|i: int|
            0 <= i < qna_recordings(spec_default_qna()).len() ==> spec_default_recording_names().contains(
                #[trigger] qna_recordings(spec_default_qna())[i],
            ),
        first_missing(required_recordings(spec_default_config()), spec_default_recording_names()) == Some(
            "cerebrum.mp3"@,
        ),
{
    reveal_strlit("cerebrum.mp3");
    reveal_strlit("activate_interactive.mp3");
    reveal_strlit("activate_qna.mp3");
    reveal_strlit("question_1.mp3");
    reveal_strlit("correct_answer_for_1.mp3");
    reveal_strlit("wrong_answer_1.mp3");
    reveal_strlit("question_2.mp3");
    reveal_strlit("correct_answer_for_2.mp3");
    reveal_strlit("wrong_answer_2.mp3");
    reveal_strlit("question_3.mp3");
    reveal_strlit("correct_answer_for_3.mp3");
    reveal_strlit("wrong_answer_3.mp3");
    let names = spec_default_recording_names();
    let qna = spec_default_qna();
    reveal_with_fuel(qna_recordings, 4);
    assert(qna.drop_last().drop_last().drop_last() =~= Seq::<QnaEntryView>::empty());
    let q = qna_recordings(qna);
    assert(q =~= seq![
        names[2], names[3], names[4], names[5], names[6], names[7], names[8], names[9], names[10]
    ]);
    assert forall|i: int| 0 <= i < q.len() implies names.contains(#[trigger] q[i]) by {
        assert(q[i] == names[i + 2]);
    }
    let inter = spec_default_interactive();
    reveal_with_fuel(interactive_recordings, 4);
    assert(inter.drop_last().drop_last().drop_last() =~= Seq::<InteractiveEntryView>::empty());
    let req = required_recordings(spec_default_config());
    assert(req[0] == "cerebrum.mp3"@);
    assert(!names.contains("cerebrum.mp3"@)) by {
        if names.contains("cerebrum.mp3"@) {
            let k = choose|k: int| 0 <= k < names.len() && names[k] == "cerebrum.mp3"@;
            assert(names[k][0] != 'c' || names[k][1] != 'e' || names[k].len() != 12);
        }
    }
}

/// The announcement of every mode is among the shipped recordings.
pub proof fn lemma_mode_recordings_loaded(mode: Mode)
    ensures
        spec_default_recording_names().contains(spec_mode_recording(mode)),
{
    let names = spec_default_recording_names();
    match mode {
        Mode::Interactive => assert(names[0] == spec_mode_recording(mode)),
        Mode::Qna => assert(names[1] == spec_mode_recording(mode)),
    }
}

/// The shipped configuration: question `i + 1` and interactive exhibit `i`
/// both use LED `i` and button `i`, for `i` from 0 to 2; the questions are
/// "question_1.mp3" to "question_3.mp3", each with its own correct and wrong
/// answer; the interactive exhibits are the cerebrum, the medulla and the
/// hindbrain, the last with two recordings.
pub proof fn lemma_default_config_layout()
    ensures
        spec_default_config().qna.len() == 3,
        spec_default_config().interactive.len() == 3,
        forall|i: int|
            0 <= i < 3 ==> #[trigger] spec_default_config().qna[i].led == i && spec_default_config().qna[i].button
                == i,
        forall|i: int|
            0 <= i < 3 ==> #[trigger] spec_default_config().interactive[i].led == i
                && spec_default_config().interactive[i].button == i,
        spec_default_config().qna[0].question == "question_1.mp3"@,
        spec_default_config().qna[0].correct_answer == "correct_answer_for_1.mp3"@,
        spec_default_config().qna[0].wrong_answer == "wrong_answer_1.mp3"@,
        spec_default_config().qna[1].question == "question_2.mp3"@,
        spec_default_config().qna[1].correct_answer == "correct_answer_for_2.mp3"@,
        spec_default_config().qna[1].wrong_answer == "wrong_answer_2.mp3"@,
        spec_default_config().qna[2].question == "question_3.mp3"@,
        spec_default_config().qna[2].correct_answer == "correct_answer_for_3.mp3"@,
        spec_default_config().qna[2].wrong_answer == "wrong_answer_3.mp3"@,
        spec_default_config().interactive[0].interactive == seq!["cerebrum.mp3"@],
        spec_default_config().interactive[1].interactive == seq!["medulla.mp3"@],
        spec_default_config().interactive[2].interactive == seq!["hindbrain_1.mp3"@, "hindbrain_2.mp3"@],
{
}

} // verus!
