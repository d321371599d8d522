use vstd::prelude::*;

verus! {

/// A row of the metadata store: the id that the store assigned and the file
/// name as it was declared.
#[derive(Debug, Clone, PartialEq, Eq)]
pub struct FileRecord {
    pub id: i32,
    pub name: String,
}

/// A stored record, over mathematical values.
pub struct FileRecordView {
    pub id: int,
    pub name: Seq<char>,
}

impl View for FileRecord {
    type V = FileRecordView;

    open spec fn view(&self) -> FileRecordView {
        FileRecordView { id: self.id as int, name: self.name@ }
    }
}

/// The failure of a query on the metadata store.
#[derive(Debug, Clone, PartialEq, Eq)]
pub enum StoreError {
    /// The store could not be reached or answered with an error.
    Unavailable,
}

impl FileRecord {
    /// A record with the given id and name.
    pub fn new(id: i32, name: String) -> (r: FileRecord)
        ensures
            r.id == id,
            r.name@ == name@,
    {
        FileRecord { id, name }
    }
}

/// The decimal digit for a number below ten.
pub open spec fn digit_char(d: nat) -> char {
    if d == 0 { '0' }
    else if d == 1 { '1' }
    else if d == 2 { '2' }
    else if d == 3 { '3' }
    else if d == 4 { '4' }
    else if d == 5 { '5' }
    else if d == 6 { '6' }
    else if d == 7 { '7' }
    else if d == 8 { '8' }
    else { '9' }
}

/// The decimal digits of a natural number, most significant first, without leading zeros.
pub open spec fn decimal_digits(n: nat) -> Seq<char>
    decreases n,
{
    if n < 10 {
        seq![digit_char(n)]
    } else {
        decimal_digits(n / 10).push(digit_char(n % 10))
    }
}

/// The decimal text of an integer, with a leading `-` where it is negative.
pub open spec fn decimal_text(i: int) -> Seq<char> {
    if i < 0 {
        seq!['-'] + decimal_digits((-i) as nat)
    } else {
        decimal_digits(i as nat)
    }
}

/// The paragraph that shows one record.
pub open spec fn record_line(r: FileRecordView) -> Seq<char> {
    "<p>ID: "@ + decimal_text(r.id) + " - Filename: "@ + r.name + "</p>"@
}

/// The paragraphs of the records, in order.
pub open spec fn record_lines(rs: Seq<FileRecordView>) -> Seq<char>
    decreases rs.len(),
{
    if rs.len() == 0 {
        Seq::empty()
    } else {
        record_lines(rs.drop_last()) + record_line(rs.last())
    }
}

/// The page that lists the records.
pub open spec fn listing_page(rs: Seq<FileRecordView>) -> Seq<char> {
    "<html><body>"@ + record_lines(rs) + "</body></html>"@
}

/// The views of a sequence of records.
pub open spec fn records_view(rs: Seq<FileRecord>) -> Seq<FileRecordView> {
    rs.map_values(|r: FileRecord| r@)
}

fn digit_str(d: u64) -> (r: &'static str)
    requires
        d < 10,
    ensures
        r@ == seq![digit_char(d as nat)],
{
    proof {
        reveal_strlit("0");
        reveal_strlit("1");
        reveal_strlit("2");
        reveal_strlit("3");
        reveal_strlit("4");
        reveal_strlit("5");
        reveal_strlit("6");
        reveal_strlit("7");
        reveal_strlit("8");
        reveal_strlit("9");
    }
    let r = if d == 0 { "0" }
    else if d == 1 { "1" }
    else if d == 2 { "2" }
    else if d == 3 { "3" }
    else if d == 4 { "4" }
    else if d == 5 { "5" }
    else if d == 6 { "6" }
    else if d == 7 { "7" }
    else if d == 8 { "8" }
    else { "9" };
    assert(r@ =~= seq![digit_char(d as nat)]);
    r
}

fn append_digits(out: &mut String, n: u64)
    ensures
        final(out)@ == old(out)@ + decimal_digits(n as nat),
    decreases n,
{
    if n < 10 {
        out.append(digit_str(n));
    } else {
        let ghost before = out@;
        append_digits(out, n / 10);
        out.append(digit_str(n % 10));
        assert(out@ =~= before + decimal_digits(n as nat));
    }
}

/// Appends the decimal text of `i` to `out`.
pub fn append_decimal(out: &mut String, i: i32)
    ensures
        final(out)@ == old(out)@ + decimal_text(i as int),
{
    if i < 0 {
        let ghost before = out@;
        proof {
            reveal_strlit("-");
        }
        out.append("-");
        let magnitude: u64 = (0i64 - (i as i64)) as u64;
        append_digits(out, magnitude);
        assert(out@ =~= before + decimal_text(i as int));
    } else {
        append_digits(out, i as u64);
    }
}

/// The paragraph that shows one record: `<p>ID: <id> - Filename: <name></p>`.
pub fn render_record(record: &FileRecord) -> (r: String)
    ensures
        r@ == record_line(record@),
{
    let mut out = String::from_str("<p>ID: ");
    append_decimal(&mut out, record.id);
    out.append(" - Filename: ");
    out.append(record.name.as_str());
    out.append("</p>");
    out
}

/// The listing page: each record's paragraph, in the order given, inside a
/// minimal HTML document. A failed query shows as a page with no record.
pub fn get_files_html(fetched: Result<Vec<FileRecord>, StoreError>) -> (r: String)
    ensures
        r@ == listing_page(
            match fetched {
                Ok(rs) => records_view(rs@),
                Err(_) => Seq::empty(),
            },
        ),
{
    let records = match fetched {
        Ok(rs) => rs,
        Err(_) => Vec::new(),
    };
    let mut out = String::from_str("<html><body>");
    let mut i: usize = 0;
    while i < records.len()
        invariant
            i <= records.len(),
            out@ == "<html><body>"@ + record_lines(records_view(records@.subrange(0, i as int))),
        decreases records.len() - i,
    {
        let line = render_record(&records[i]);
        out.append(line.as_str());
        proof {
            let next = records_view(records@.subrange(0, i as int + 1));
            assert(next.drop_last() =~= records_view(records@.subrange(0, i as int)));
            assert(next.last() == records@[i as int]@);
        }
        i = i + 1;
    }
    assert(records@.subrange(0, records.len() as int) =~= records@);
    out.append("</body></html>");
    out
}

/// After a new record is stored, the listing shows it as the last paragraph
/// with its name exactly as declared, and its id is above every id listed
/// before, provided the store assigns ids that grow with each insert.
pub proof fn lemma_new_record_listed(earlier: Seq<FileRecordView>, added: FileRecordView)
    requires
        forall|k: int| 0 <= k < earlier.len() ==> #[trigger] earlier[k].id < added.id,
    ensures
        listing_page(earlier.push(added)) == "<html><body>"@ + record_lines(earlier) + record_line(
            added,
        ) + "</body></html>"@,
        forall|k: int| 0 <= k < earlier.len() ==> #[trigger] earlier.push(added)[k].id < added.id,
{
    let all = earlier.push(added);
    assert(all.drop_last() =~= earlier);
    assert forall|k: int| 0 <= k < earlier.len() implies #[trigger] all[k].id < added.id by {
        assert(all[k] == earlier[k]);
    }
}

} // verus!
