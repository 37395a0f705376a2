//! Parses a CSV stream into redirect rules.

use crate::redirect_rule::{RedirectRule, RuleView};
use vstd::prelude::*;
use vstd::string::StringExecFns;

verus! {

/// The CSV reader of the `csv` crate. Nothing of its state is visible here
/// but what `reader_header` and `reader_rows` name.
#[verifier::external_type_specification]
#[verifier::external_body]
#[verifier::reject_recursive_types(R)]
pub struct ExReader<R>(csv::Reader<R>);

/// The error of the `csv` crate, carried as the diagnostic of a row that its
/// reader could not decode.
#[verifier::external_type_specification]
#[verifier::external_body]
pub struct ExError(csv::Error);

/// The header row that a reader of the `csv` crate, in its default
/// configuration, finds in `bytes`: its fields, or `None` where the row is
/// not valid UTF-8.
pub uninterp spec fn csv_header(bytes: Seq<u8>) -> Option<Seq<Seq<char>>>;

/// The data rows that a reader of the `csv` crate, in its default
/// configuration, finds in `bytes` after the header row, in order: the
/// fields of each, or `None` for a row that the reader reports as an error.
pub uninterp spec fn csv_rows(bytes: Seq<u8>) -> Seq<Option<Seq<Seq<char>>>>;

/// The header row of the input that `reader` was opened on.
pub uninterp spec fn reader_header(reader: csv::Reader<&[u8]>) -> Option<Seq<Seq<char>>>;

/// The data rows that `reader` has not handed out yet.
pub uninterp spec fn reader_rows(reader: csv::Reader<&[u8]>) -> Seq<Option<Seq<Seq<char>>>>;

/// `csv::Reader::from_reader` on a byte slice: a reader in the default
/// configuration (comma-delimited, first row a header, every row as long
/// as the first) that has handed out nothing yet. Over no bytes at all it
/// has no data row to hand out.
#[verifier::external_body]
fn open_reader<'a>(bytes: &'a [u8]) -> (reader: csv::Reader<&'a [u8]>)
    ensures
        reader_header(reader) == csv_header(bytes@),
        reader_rows(reader) == csv_rows(bytes@),
        bytes@.len() == 0 ==> reader_rows(reader).len() == 0,
{
    csv::Reader::from_reader(bytes)
}

/// `csv::Reader::headers`, with its error dropped: the fields of the header
/// row, each copied out. It takes no data row from the reader.
#[verifier::external_body]
fn header_names(reader: &mut csv::Reader<&[u8]>) -> (names: Option<Vec<String>>)
    ensures
        names.deep_view() == reader_header(*old(reader)),
        reader_header(*final(reader)) == reader_header(*old(reader)),
        reader_rows(*final(reader)) == reader_rows(*old(reader)),
{
    reader.headers().ok().map(|names| names.iter().map(String::from).collect())
}

/// The next item of `csv::Reader::records`: `None` once every data row has
/// been handed out, else the first row that has not, with its fields copied
/// out or with the error that the reader reports for it.
#[verifier::external_body]
fn next_record(reader: &mut csv::Reader<&[u8]>) -> (row: Option<Result<Vec<String>, csv::Error>>)
    ensures
        reader_header(*final(reader)) == reader_header(*old(reader)),
        reader_rows(*old(reader)).len() == 0 ==> row is None && reader_rows(*final(reader))
            == reader_rows(*old(reader)),
        reader_rows(*old(reader)).len() > 0 ==> reader_rows(*final(reader)) == reader_rows(
            *old(reader),
        ).skip(1) && match reader_rows(*old(reader))[0] {
            Some(fields) => row matches Some(Ok(found)) && found.deep_view() == fields,
            None => row matches Some(Err(_)),
        },
{
    reader.records().next().map(|row| row.map(|fields| fields.iter().map(String::from).collect()))
}

/// Why a row stands for no rule.
#[derive(Debug)]
pub enum DecodeCause {
    /// The reader could not decode the row: it is not as long as the
    /// header row, or it is not valid UTF-8.
    Malformed(csv::Error),
    /// The row has this number of columns, and not two.
    ColumnCount(usize),
    /// The header row does not name the two fields of a rule.
    UnknownColumns,
}

/// Why parsing gave no rules.
#[derive(Debug)]
pub enum ParseError {
    /// The data row of index `row`, counted from zero, stands for no rule.
    DecodeFailure { row: usize, cause: DecodeCause },
}

/// Why a row stands for no rule, mathematically.
pub enum CauseView {
    Malformed,
    ColumnCount(nat),
    UnknownColumns,
}

/// A parse failure, mathematically: the index of the row and the cause.
pub struct ParseErrorView {
    pub row: nat,
    pub cause: CauseView,
}

impl View for DecodeCause {
    type V = CauseView;

    open spec fn view(&self) -> CauseView {
        match self {
            DecodeCause::Malformed(_) => CauseView::Malformed,
            DecodeCause::ColumnCount(found) => CauseView::ColumnCount(*found as nat),
            DecodeCause::UnknownColumns => CauseView::UnknownColumns,
        }
    }
}

impl View for ParseError {
    type V = ParseErrorView;

    open spec fn view(&self) -> ParseErrorView {
        match self {
            ParseError::DecodeFailure { row, cause } => ParseErrorView {
                row: *row as nat,
                cause: cause@,
            },
        }
    }
}

/// How the columns of the input map to the two fields of a rule.
#[derive(Debug, Clone, Copy, PartialEq, Eq)]
pub enum Columns {
    /// The match pattern stands first.
    InOrder,
    /// The redirect pattern stands first.
    Swapped,
    /// The header row does not name the two fields.
    Unknown,
}

/// The name of the column that holds the match pattern.
pub open spec fn match_pattern_name() -> Seq<char> {
    "match_pattern"@
}

/// The name of the column that holds the redirect pattern.
pub open spec fn redirect_pattern_name() -> Seq<char> {
    "redirect_pattern"@
}

/// The order of the two columns under `header`. The fields of a rule are
/// found by the names in the header row; where the reader has no header
/// row to go by, they are taken in order.
pub open spec fn columns_of(header: Option<Seq<Seq<char>>>) -> Columns {
    match header {
        None => Columns::InOrder,
        Some(names) => if names.len() == 2 && names[0] == match_pattern_name() && names[1]
            == redirect_pattern_name() {
            Columns::InOrder
        } else if names.len() == 2 && names[0] == redirect_pattern_name() && names[1]
            == match_pattern_name() {
            Columns::Swapped
        } else {
            Columns::Unknown
        },
    }
}

/// Finds the order of the two columns from the header row.
pub fn column_order(header: &Option<Vec<String>>) -> (columns: Columns)
    ensures
        columns == columns_of(header.deep_view()),
{
    match header {
        None => Columns::InOrder,
        Some(names) => {
            if names.len() != 2 {
                return Columns::Unknown;
            }
            let match_pattern = String::from_str("match_pattern");
            let redirect_pattern = String::from_str("redirect_pattern");
            if names[0] == match_pattern && names[1] == redirect_pattern {
                Columns::InOrder
            } else if names[0] == redirect_pattern && names[1] == match_pattern {
                Columns::Swapped
            } else {
                Columns::Unknown
            }
        },
    }
}

/// The rule that a row of `fields` stands for: a row has exactly two
/// columns, and each is taken verbatim.
pub open spec fn rule_of(columns: Columns, fields: Seq<Seq<char>>) -> Result<RuleView, CauseView> {
    if fields.len() != 2 {
        Err(CauseView::ColumnCount(fields.len()))
    } else {
        match columns {
            Columns::InOrder => Ok(
                RuleView { match_pattern: fields[0], redirect_pattern: fields[1] },
            ),
            Columns::Swapped => Ok(
                RuleView { match_pattern: fields[1], redirect_pattern: fields[0] },
            ),
            Columns::Unknown => Err(CauseView::UnknownColumns),
        }
    }
}

/// The rule that a row stands for, as the reader hands the row out.
pub open spec fn decode_row(columns: Columns, row: Option<Seq<Seq<char>>>) -> Result<
    RuleView,
    CauseView,
> {
    match row {
        None => Err(CauseView::Malformed),
        Some(fields) => rule_of(columns, fields),
    }
}

/// The rules that `rows` stand for, in the order of the rows; or, where a
/// row stands for none, the first such row and the cause.
pub open spec fn parse_rows(columns: Columns, rows: Seq<Option<Seq<Seq<char>>>>) -> Result<
    Seq<RuleView>,
    ParseErrorView,
>
    decreases rows.len(),
{
    if rows.len() == 0 {
        Ok(Seq::empty())
    } else {
        match parse_rows(columns, rows.drop_last()) {
            Err(failure) => Err(failure),
            Ok(rules) => match decode_row(columns, rows.last()) {
                Ok(rule) => Ok(rules.push(rule)),
                Err(cause) => Err(ParseErrorView { row: (rows.len() - 1) as nat, cause }),
            },
        }
    }
}

/// The views of a parse's result.
pub open spec fn parsed(res: Result<Vec<RedirectRule>, ParseError>) -> Result<
    Seq<RuleView>,
    ParseErrorView,
> {
    match res {
        Ok(rules) => Ok(rules.deep_view()),
        Err(err) => Err(err@),
    }
}

/// Decodes one row of fields into a rule.
pub fn decode_fields(columns: Columns, fields: &Vec<String>) -> (res: Result<
    RedirectRule,
    DecodeCause,
>)
    ensures
        match rule_of(columns, fields.deep_view()) {
            Ok(rule) => res matches Ok(found) && found@ == rule,
            Err(cause) => res matches Err(found) && found@ == cause,
        },
{
    if fields.len() != 2 {
        return Err(DecodeCause::ColumnCount(fields.len()));
    }
    match columns {
        Columns::InOrder => Ok(RedirectRule::new(fields[0].as_str(), fields[1].as_str())),
        Columns::Swapped => Ok(RedirectRule::new(fields[1].as_str(), fields[0].as_str())),
        Columns::Unknown => Err(DecodeCause::UnknownColumns),
    }
}

/// Parsing gives either one rule for each row, each the rule that its row
/// stands for, in the order of the rows; or the first row that stands for
/// no rule, with the cause, and no rule at all.
pub proof fn lemma_parse_rows(columns: Columns, rows: Seq<Option<Seq<Seq<char>>>>)
    ensures
        match parse_rows(columns, rows) {
            Ok(rules) => rules.len() == rows.len() && forall|i: int|
                0 <= i < rows.len() ==> decode_row(columns, #[trigger] rows[i]) == Ok::<
                    _,
                    CauseView,
                >(rules[i]),
            Err(failure) => failure.row < rows.len() && decode_row(
                columns,
                rows[failure.row as int],
            ) == Err::<RuleView, _>(failure.cause) && forall|i: int|
                0 <= i < failure.row ==> decode_row(columns, #[trigger] rows[i]) is Ok,
        },
    decreases rows.len(),
{
    if rows.len() > 0 {
        let before = rows.drop_last();
        lemma_parse_rows(columns, before);
        match parse_rows(columns, before) {
            Ok(rules) => {
                assert forall|i: int| 0 <= i < before.len() implies decode_row(
                    columns,
                    #[trigger] rows[i],
                ) == Ok::<_, CauseView>(rules[i]) by {
                    assert(before[i] == rows[i]);
                }
            },
            Err(failure) => {
                assert forall|i: int| 0 <= i < failure.row implies decode_row(
                    columns,
                    #[trigger] rows[i],
                ) is Ok by {
                    assert(before[i] == rows[i]);
                }
            },
        }
    }
}

/// Where the header names the two fields and every data row is readable
/// and has two columns, parsing gives as many rules as there are rows, and
/// the rule of index `i` holds the two fields of the row of index `i`.
pub proof fn lemma_two_column_rows_parse(columns: Columns, rows: Seq<Option<Seq<Seq<char>>>>)
    requires
        columns != Columns::Unknown,
        forall|i: int| 0 <= i < rows.len() ==> (#[trigger] rows[i]) is Some && rows[i]->0.len() == 2,
    ensures
        parse_rows(columns, rows) matches Ok(rules) && rules.len() == rows.len() && forall|i: int|
            0 <= i < rows.len() ==> rule_of(columns, (#[trigger] rows[i])->0) == Ok::<
                _,
                CauseView,
            >(rules[i]),
{
    lemma_parse_rows(columns, rows);
}

/// Where a data row is unreadable, or has a number of columns other than
/// two, parsing fails, at that row or before it, and gives no rules.
pub proof fn lemma_bad_row_fails(columns: Columns, rows: Seq<Option<Seq<Seq<char>>>>, i: int)
    requires
        0 <= i < rows.len(),
        rows[i] is None || rows[i]->0.len() != 2,
    ensures
        parse_rows(columns, rows) matches Err(failure) && failure.row <= i,
{
    lemma_parse_rows(columns, rows);
}

/// A failure among the first rows is the failure of the whole.
proof fn lemma_failure_stays(columns: Columns, rows: Seq<Option<Seq<Seq<char>>>>, n: int)
    requires
        0 <= n <= rows.len(),
        parse_rows(columns, rows.take(n)) is Err,
    ensures
        parse_rows(columns, rows) == parse_rows(columns, rows.take(n)),
    decreases rows.len() - n,
{
    if n == rows.len() {
        assert(rows.take(n) == rows);
    } else {
        assert(rows.take(n + 1).drop_last() == rows.take(n));
        lemma_failure_stays(columns, rows, n + 1);
    }
}

/// A container for the bytes of a CSV stream that is to be parsed into
/// redirect rules.
pub struct Parser {
    reader: Vec<u8>,
}

impl View for Parser {
    type V = Seq<u8>;

    closed spec fn view(&self) -> Seq<u8> {
        self.reader@
    }
}

impl Parser {
    /// Takes the bytes of the stream, read to its end.
    pub fn new(reader: Vec<u8>) -> (parser: Self)
        ensures
            parser@ == reader@,
    {
        Self { reader }
    }

    /// Parses the stream and returns, on success, one rule for each data
    /// row, in the order of the rows. The first row that stands for no rule
    /// ends the parse, and no rule is returned.
    pub fn get_rules(&self) -> (res: Result<Vec<RedirectRule>, ParseError>)
        ensures
            parsed(res) == parse_rows(columns_of(csv_header(self@)), csv_rows(self@)),
            self@.len() == 0 ==> parsed(res) == Ok::<_, ParseErrorView>(Seq::<RuleView>::empty()),
    {
        let mut reader = open_reader(self.reader.as_slice());
        let header = header_names(&mut reader);
        let columns = column_order(&header);
        let ghost rows = csv_rows(self@);
        let mut rules: Vec<RedirectRule> = Vec::new();

        assert(rules.deep_view() == Seq::<RuleView>::empty());
        loop
            invariant
                rows == csv_rows(self@),
                self@.len() == 0 ==> rows.len() == 0,
                columns == columns_of(csv_header(self@)),
                rules.len() <= rows.len(),
                reader_rows(reader) == rows.skip(rules.len() as int),
                parse_rows(columns, rows.take(rules.len() as int)) == Ok::<_, ParseErrorView>(
                    rules.deep_view(),
                ),
            decreases rows.len() - rules.len(),
        {
            let ghost n = rules.len() as int;
            let ghost before = rules.deep_view();
            let row = next_record(&mut reader);
            proof {
                // The rows read so far and the one at hand are the first
                // `n + 1` rows; with none at hand, they are all the rows.
                if n < rows.len() {
                    assert(rows.take(n + 1).drop_last() == rows.take(n));
                } else {
                    assert(rows.take(n) == rows);
                }
            }
            let fields = match row {
                None => {
                    return Ok(rules);
                },
                Some(Err(err)) => {
                    proof {
                        lemma_failure_stays(columns, rows, n + 1);
                    }
                    return Err(
                        ParseError::DecodeFailure {
                            row: rules.len(),
                            cause: DecodeCause::Malformed(err),
                        },
                    );
                },
                Some(Ok(fields)) => fields,
            };
            match decode_fields(columns, &fields) {
                Ok(rule) => {
                    rules.push(rule);
                    assert(rules.deep_view() == before.push(rule@));
                },
                Err(cause) => {
                    proof {
                        lemma_failure_stays(columns, rows, n + 1);
                    }
                    return Err(ParseError::DecodeFailure { row: rules.len(), cause });
                },
            }
        }
    }

    /// Consumes the parser and parses its stream, as `get_rules` does.
    pub fn into_rules(self) -> (res: Result<Vec<RedirectRule>, ParseError>)
        ensures
            parsed(res) == parse_rows(columns_of(csv_header(self@)), csv_rows(self@)),
            self@.len() == 0 ==> parsed(res) == Ok::<_, ParseErrorView>(Seq::<RuleView>::empty()),
    {
        self.get_rules()
    }
}

} // verus!
