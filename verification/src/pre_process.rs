//! The intake: command-line arguments, the CSV table of issues or rules, and
//! the texts made from its records.
use vstd::prelude::*;

verus! {

/// What is said when the input path is missing.
pub const NO_INPUT_PATH: &'static str = "no input path received for the audit";

/// What is said when the output path is missing.
pub const NO_OUTPUT_PATH: &'static str = "no output path recived";

/// Checks that the arguments name an input path (`args[1]`) and an output
/// path (`args[2]`); `args[0]` is the program. On failure, the message to
/// print before leaving.
pub fn validate_args(args: &Vec<String>) -> (checked: Result<(), String>)
    ensures
        args@.len() < 2 ==> (checked matches Err(m) && m@ == NO_INPUT_PATH@),
        args@.len() == 2 ==> (checked matches Err(m) && m@ == NO_OUTPUT_PATH@),
        args@.len() >= 3 <==> checked is Ok,
{
    if args.len() < 2 {
        return Err(String::from_str(NO_INPUT_PATH));
    }
    if args.len() < 3 {
        return Err(String::from_str(NO_OUTPUT_PATH));
    }
    Ok(())
}

/// The records that the `csv` crate reads from `input` with its default
/// settings (a header line, which is not a record; `,` between fields; every
/// record as long as the header), each as its fields; or the message of the
/// first error it meets.
pub uninterp spec fn csv_table(input: Seq<u8>) -> Result<Seq<Seq<Seq<char>>>, Seq<char>>;

/// The fields of each record, as text.
pub open spec fn table_view(rows: Seq<Vec<String>>) -> Seq<Seq<Seq<char>>> {
    rows.map_values(|r: Vec<String>| r@.map_values(|f: String| f@))
}

/// Reads every record of `input` with `csv::Reader::from_reader` and its
/// `records` iterator, stopping at the first error. Its contract: the
/// outcome, records or the error's message, is the one named `csv_table`.
#[verifier::external_body]
fn csv_records(input: &[u8]) -> (read: Result<Vec<Vec<String>>, String>)
    ensures
        match read {
            Ok(rows) => csv_table(input@) == Ok::<Seq<Seq<Seq<char>>>, Seq<char>>(table_view(rows@)),
            Err(m) => csv_table(input@) == Err::<Seq<Seq<Seq<char>>>, Seq<char>>(m@),
        },
{
    let mut reader = csv::Reader::from_reader(input);
    let mut rows: Vec<Vec<String>> = Vec::new();
    for record in reader.records() {
        match record {
            Ok(r) => rows.push(r.iter().map(String::from).collect()),
            Err(e) => return Err(e.to_string()),
        }
    }
    Ok(rows)
}

/// Reads the records of the CSV table in `contents` (the bytes of the input
/// file), or gives the message of the first error that the `csv` crate meets.
pub fn read_csv(contents: &[u8]) -> (read: Result<Vec<Vec<String>>, String>)
    ensures
        match csv_table(contents@) {
            Ok(table) => read matches Ok(rows) && table_view(rows@) == table,
            Err(m) => read matches Err(e) && e@ == m,
        },
{
    csv_records(contents)
}

/// Texts one after the other, each followed by a line break.
pub open spec fn lines(texts: Seq<Seq<char>>) -> Seq<char>
    decreases texts.len(),
{
    if texts.len() == 0 {
        Seq::empty()
    } else {
        lines(texts.drop_last()) + texts.last() + seq!['\n']
    }
}

/// Putting lists of texts one after the other puts their lines one after the
/// other: no text of either list is lost, cut or reordered.
pub proof fn law_lines_concatenate(a: Seq<Seq<char>>, b: Seq<Seq<char>>)
    ensures
        lines(a + b) == lines(a) + lines(b),
    decreases b.len(),
{
    if b.len() == 0 {
        assert(a + b =~= a);
        assert(lines(a) + lines(b) =~= lines(a));
    } else {
        law_lines_concatenate(a, b.drop_last());
        assert((a + b).drop_last() =~= a + b.drop_last());
        assert((a + b).last() == b.last());
        assert(lines(a + b) =~= lines(a) + lines(b));
    }
}

/// A single text is written whole, followed by one line break.
pub proof fn law_single_line(t: Seq<char>)
    ensures
        lines(seq![t]) == t + seq!['\n'],
{
    let single = seq![t];
    assert(single.drop_last() =~= Seq::<Seq<char>>::empty());
    assert(single.last() == t);
    assert(lines(single.drop_last()) == Seq::<char>::empty());
    assert(lines(single) == lines(single.drop_last()) + single.last() + seq!['\n']);
    assert(Seq::<char>::empty() + t + seq!['\n'] =~= t + seq!['\n']);
}

/// Every text counts: the lines of a list are as long as all its texts
/// together, plus one line break each.
pub proof fn law_lines_length(texts: Seq<Seq<char>>)
    ensures
        lines(texts).len() == texts.fold_left(0nat, |n: nat, t: Seq<char>| n + t.len() + 1),
    decreases texts.len(),
{
    if texts.len() > 0 {
        law_lines_length(texts.drop_last());
    }
}

/// The texts of a list of strings.
pub open spec fn texts_of(strings: Seq<String>) -> Seq<Seq<char>> {
    strings.map_values(|s: String| s@)
}

/// Writes each string followed by a line break.
pub(crate) fn join_lines(strings: &Vec<String>) -> (text: String)
    ensures
        text@ == lines(texts_of(strings@)),
{
    let mut text = String::new();
    let mut j: usize = 0;
    assert(texts_of(strings@.take(0)) =~= Seq::<Seq<char>>::empty());
    while j < strings.len()
        invariant
            j <= strings@.len(),
            text@ == lines(texts_of(strings@.take(j as int))),
        decreases strings@.len() - j,
    {
        proof {
            reveal_strlit("\n");
            assert(texts_of(strings@.take(j + 1)).drop_last() =~= texts_of(strings@.take(j as int)));
        }
        text.append(strings[j].as_str());
        text.append("\n");
        j += 1;
    }
    assert(strings@.take(strings@.len() as int) =~= strings@);
    text
}

/// One text per record, in order: each field followed by a line break.
pub fn create_general_vector(records: &Vec<Vec<String>>) -> (texts: Vec<String>)
    ensures
        texts@.len() == records@.len(),
        forall|i: int| 0 <= i < records@.len() ==> #[trigger] texts@[i]@ == lines(texts_of(records@[i]@)),
{
    let mut texts: Vec<String> = Vec::new();
    let mut i: usize = 0;
    while i < records.len()
        invariant
            i <= records@.len(),
            texts@.len() == i,
            forall|k: int| 0 <= k < i ==> #[trigger] texts@[k]@ == lines(texts_of(records@[k]@)),
        decreases records@.len() - i,
    {
        let text = join_lines(&records[i]);
        texts.push(text);
        i += 1;
    }
    texts
}

/// The text of a validation rule: its name (first field) and its value
/// (second field).
pub open spec fn validation_text(name: Seq<char>, value: Seq<char>) -> Seq<char> {
    "validation: "@ + name + "\n"@ + "value: "@ + value
}

/// A rule text keeps the rule's whole name and whole value: it starts with
/// `validation: ` and the name, and ends with the value.
pub proof fn law_validation_text_keeps_name_and_value(name: Seq<char>, value: Seq<char>)
    ensures
        validation_text(name, value).take(12 + name.len() as int) == "validation: "@ + name,
        validation_text(name, value).skip(validation_text(name, value).len() - value.len() as int) == value,
        validation_text(name, value).len() == name.len() + value.len() + 20,
{
    reveal_strlit("validation: ");
    reveal_strlit("\n");
    reveal_strlit("value: ");
    let t = validation_text(name, value);
    assert(t.take(12 + name.len() as int) =~= "validation: "@ + name);
    assert(t.skip(t.len() - value.len() as int) =~= value);
}

/// One text per validation rule, in order. Every record must have a name and
/// a value.
pub fn create_validation_vectors(records: &Vec<Vec<String>>) -> (texts: Vec<String>)
    requires
        forall|i: int| 0 <= i < records@.len() ==> #[trigger] records@[i]@.len() >= 2,
    ensures
        texts@.len() == records@.len(),
        forall|i: int|
            0 <= i < records@.len() ==> #[trigger] texts@[i]@ == validation_text(
                records@[i]@[0]@,
                records@[i]@[1]@,
            ),
{
    let mut texts: Vec<String> = Vec::new();
    let mut i: usize = 0;
    while i < records.len()
        invariant
            i <= records@.len(),
            texts@.len() == i,
            forall|k: int| 0 <= k < records@.len() ==> #[trigger] records@[k]@.len() >= 2,
            forall|k: int|
                0 <= k < i ==> #[trigger] texts@[k]@ == validation_text(
                    records@[k]@[0]@,
                    records@[k]@[1]@,
                ),
        decreases records@.len() - i,
    {
        let record = &records[i];
        assert(record@.len() >= 2);
        let mut text = String::from_str("validation: ");
        text.append(record[0].as_str());
        text.append("\n");
        text.append("value: ");
        text.append(record[1].as_str());
        texts.push(text);
        i += 1;
    }
    texts
}

} // verus!
