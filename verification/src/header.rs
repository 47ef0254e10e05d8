//! Header-derived record shaping: the first line of the stream can be read
//! as a delimiter-separated list of column names, giving an ordered mapping
//! from field index to name. Later lines are split on the same delimiter and
//! re-shaped into records keyed by column name, or by the decimal index
//! where the header gave that field no name.
use std::collections::HashMap;

use vstd::prelude::*;
use vstd::string::StrSliceExecFns;
use vstd::string::StringExecFns;

verus! {

/// The field delimiter.
pub const FIELD_DELIMITER: char = ',';

/// The views of a sequence of strings.
pub open spec fn str_views(s: Seq<String>) -> Seq<Seq<char>> {
    s.map_values(|x: String| x@)
}

/// Splitting on a delimiter: one piece more than there are delimiters, in
/// order, each piece free of the delimiter; the empty text is one empty
/// piece.
pub open spec fn spec_split(s: Seq<char>, d: char) -> Seq<Seq<char>>
    decreases s.len(),
{
    if s.len() == 0 {
        seq![Seq::<char>::empty()]
    } else if s[0] == d {
        seq![Seq::<char>::empty()] + spec_split(s.drop_first(), d)
    } else {
        let rest = spec_split(s.drop_first(), d);
        seq![seq![s[0]] + rest[0]] + rest.drop_first()
    }
}

/// A split always yields at least one piece.
pub proof fn lemma_split_nonempty(s: Seq<char>, d: char)
    ensures
        spec_split(s, d).len() >= 1,
    decreases s.len(),
{
    if s.len() == 0 {
    } else {
        lemma_split_nonempty(s.drop_first(), d);
    }
}

/// Text with no delimiter at all is a single piece.
pub proof fn lemma_split_whole(s: Seq<char>, d: char)
    requires
        forall|j: int| 0 <= j < s.len() ==> s[j] != d,
    ensures
        spec_split(s, d) =~= seq![s],
    decreases s.len(),
{
    if s.len() == 0 {
        assert(spec_split(s, d) =~= seq![Seq::<char>::empty()]);
        assert(s =~= Seq::<char>::empty());
    } else {
        let rest = spec_split(s.drop_first(), d);
        lemma_split_whole(s.drop_first(), d);
        assert(rest =~= seq![s.drop_first()]);
        assert(rest.drop_first() =~= Seq::<Seq<char>>::empty());
        assert(seq![s[0]] + rest[0] =~= s);
    }
}

/// If the first delimiter of `s` stands at index `k`, the pieces of `s` are
/// the prefix before it followed by the pieces of what comes after it.
pub proof fn lemma_split_step(s: Seq<char>, d: char, k: int)
    requires
        0 <= k < s.len(),
        forall|j: int| 0 <= j < k ==> s[j] != d,
        s[k] == d,
    ensures
        spec_split(s, d) =~= seq![s.subrange(0, k)] + spec_split(s.skip(k + 1), d),
    decreases k,
{
    if k == 0 {
        assert(s.subrange(0, 0) =~= Seq::<char>::empty());
        assert(s.drop_first() =~= s.skip(1));
    } else {
        let dtl = s.drop_first();
        lemma_split_step(dtl, d, k - 1);
        lemma_split_nonempty(dtl.skip(k), d);
        let rest = spec_split(dtl, d);
        assert(rest =~= seq![dtl.subrange(0, k - 1)] + spec_split(dtl.skip(k), d));
        assert(spec_split(s, d) =~= seq![seq![s[0]] + rest[0]] + rest.drop_first());
        assert(seq![s[0]] + rest[0] =~= s.subrange(0, k));
        assert(rest.drop_first() =~= spec_split(dtl.skip(k), d));
        assert(dtl.skip(k) =~= s.skip(k + 1));
    }
}

/// Split a string on the field delimiter into its pieces.
pub fn split_fields(s: &str) -> (fields: Vec<String>)
    ensures
        fields@.len() == spec_split(s@, FIELD_DELIMITER).len(),
        forall|k: int|
            0 <= k < fields@.len() ==> #[trigger] fields@[k]@ == spec_split(s@, FIELD_DELIMITER)[k],
{
    let n: usize = s.unicode_len();
    let mut fields: Vec<String> = Vec::new();
    let mut start: usize = 0;
    let mut i: usize = 0;
    proof {
        assert(s@.skip(0) =~= s@);
        assert(str_views(fields@) =~= Seq::<Seq<char>>::empty());
        assert(str_views(fields@) + spec_split(s@, FIELD_DELIMITER) =~= spec_split(
            s@,
            FIELD_DELIMITER,
        ));
    }
    while i < n
        invariant
            start <= i <= n,
            n == s@.len(),
            forall|j: int| start <= j < i ==> s@[j] != FIELD_DELIMITER,
            spec_split(s@, FIELD_DELIMITER) =~= str_views(fields@) + spec_split(
                s@.skip(start as int),
                FIELD_DELIMITER,
            ),
        decreases n - i,
    {
        if s.get_char(i) == FIELD_DELIMITER {
            let piece = s.substring_char(start, i).to_owned();
            proof {
                lemma_split_step(s@.skip(start as int), FIELD_DELIMITER, i - start);
                assert(s@.skip(start as int).subrange(0, i - start) =~= s@.subrange(
                    start as int,
                    i as int,
                ));
                assert(s@.skip(start as int).skip(i - start + 1) =~= s@.skip(i + 1));
                assert(str_views(fields@.push(piece)) =~= str_views(fields@).push(piece@));
            }
            fields.push(piece);
            start = i + 1;
        }
        i = i + 1;
    }
    let piece = s.substring_char(start, n).to_owned();
    proof {
        lemma_split_whole(s@.skip(start as int), FIELD_DELIMITER);
        assert(s@.skip(start as int) =~= s@.subrange(start as int, n as int));
        assert(str_views(fields@.push(piece)) =~= str_views(fields@).push(piece@));
    }
    fields.push(piece);
    proof {
        assert(str_views(fields@) =~= spec_split(s@, FIELD_DELIMITER));
    }
    fields
}

/// The whitespace that header names are stripped of.
pub open spec fn is_space(c: char) -> bool {
    c == ' ' || c == '\t' || c == '\r' || c == '\n'
}

/// Whether `c` is whitespace to be trimmed from a header name.
pub fn is_space_char(c: char) -> (b: bool)
    ensures
        b == is_space(c),
{
    c == ' ' || c == '\t' || c == '\r' || c == '\n'
}

/// Text with its leading whitespace removed.
pub open spec fn spec_trim_start(s: Seq<char>) -> Seq<char>
    decreases s.len(),
{
    if s.len() > 0 && is_space(s[0]) {
        spec_trim_start(s.drop_first())
    } else {
        s
    }
}

/// Text with its trailing whitespace removed.
pub open spec fn spec_trim_end(s: Seq<char>) -> Seq<char>
    decreases s.len(),
{
    if s.len() > 0 && is_space(s.last()) {
        spec_trim_end(s.drop_last())
    } else {
        s
    }
}

/// Text with whitespace removed from both ends.
pub open spec fn spec_trim(s: Seq<char>) -> Seq<char> {
    spec_trim_end(spec_trim_start(s))
}

proof fn lemma_trim_start_at(s: Seq<char>, a: int)
    requires
        0 <= a <= s.len(),
        forall|k: int| 0 <= k < a ==> is_space(s[k]),
        a == s.len() || !is_space(s[a]),
    ensures
        spec_trim_start(s) =~= s.skip(a),
    decreases a,
{
    if a == 0 {
        assert(s.skip(0) =~= s);
    } else {
        lemma_trim_start_at(s.drop_first(), a - 1);
        assert(s.drop_first().skip(a - 1) =~= s.skip(a));
    }
}

proof fn lemma_trim_end_at(s: Seq<char>, b: int)
    requires
        0 <= b <= s.len(),
        forall|k: int| b <= k < s.len() ==> is_space(s[k]),
        b == 0 || !is_space(s[b - 1]),
    ensures
        spec_trim_end(s) =~= s.take(b),
    decreases s.len(),
{
    if b == s.len() {
        assert(s.take(b) =~= s);
    } else {
        lemma_trim_end_at(s.drop_last(), b);
        assert(s.drop_last().take(b) =~= s.take(b));
    }
}

/// Strip whitespace from both ends of a string.
pub fn trim_ends(s: &str) -> (r: String)
    ensures
        r@ == spec_trim(s@),
{
    let n: usize = s.unicode_len();
    let mut a: usize = 0;
    while a < n && is_space_char(s.get_char(a))
        invariant
            a <= n,
            n == s@.len(),
            forall|k: int| 0 <= k < a ==> is_space(s@[k]),
        decreases n - a,
    {
        a = a + 1;
    }
    let mut b: usize = n;
    while b > a && is_space_char(s.get_char(b - 1))
        invariant
            a <= b <= n,
            n == s@.len(),
            forall|k: int| b <= k < n ==> is_space(s@[k]),
        decreases b,
    {
        b = b - 1;
    }
    proof {
        lemma_trim_start_at(s@, a as int);
        lemma_trim_end_at(s@.skip(a as int), b - a);
        assert(s@.skip(a as int).take(b - a) =~= s@.subrange(a as int, b as int));
    }
    s.substring_char(a, b).to_owned()
}

/// The character for one decimal digit.
pub open spec fn spec_digit(d: nat) -> char {
    if d == 0 {
        '0'
    } else if d == 1 {
        '1'
    } else if d == 2 {
        '2'
    } else if d == 3 {
        '3'
    } else if d == 4 {
        '4'
    } else if d == 5 {
        '5'
    } else if d == 6 {
        '6'
    } else if d == 7 {
        '7'
    } else if d == 8 {
        '8'
    } else {
        '9'
    }
}

/// The decimal notation of a number, most significant digit first, no
/// leading zeroes (zero itself is "0").
pub open spec fn spec_decimal(n: nat) -> Seq<char>
    decreases n,
{
    if n < 10 {
        seq![spec_digit(n)]
    } else {
        spec_decimal(n / 10).push(spec_digit(n % 10))
    }
}

fn digit_str(d: usize) -> (r: &'static str)
    requires
        d < 10,
    ensures
        r@ == seq![spec_digit(d as nat)],
{
    proof {
        reveal_strlit("0");
        reveal_strlit("1");
        reveal_strlit("2");
        reveal_strlit("3");
        reveal_strlit("4");
        reveal_strlit("5");
        reveal_strlit("6");
        reveal_strlit("7");
        reveal_strlit("8");
        reveal_strlit("9");
    }
    let r: &'static str = if d == 0 {
        "0"
    } else if d == 1 {
        "1"
    } else if d == 2 {
        "2"
    } else if d == 3 {
        "3"
    } else if d == 4 {
        "4"
    } else if d == 5 {
        "5"
    } else if d == 6 {
        "6"
    } else if d == 7 {
        "7"
    } else if d == 8 {
        "8"
    } else {
        "9"
    };
    proof {
        assert(r@ =~= seq![spec_digit(d as nat)]);
    }
    r
}

/// A field index as text, used as the label of a field the header did not
/// name.
pub fn index_label(n: usize) -> (r: String)
    ensures
        r@ == spec_decimal(n as nat),
    decreases n,
{
    if n < 10 {
        digit_str(n).to_owned()
    } else {
        let mut prefix = index_label(n / 10);
        prefix.append(digit_str(n % 10));
        proof {
            assert(prefix@ =~= spec_decimal((n / 10) as nat).push(spec_digit((n % 10) as nat)));
        }
        prefix
    }
}

/// The column mapping a header line yields: for each field whose trimmed
/// name is not empty, that index maps to the trimmed name; a field whose
/// name is empty is left out (its index keeps its numeric label downstream).
pub fn derive_columns(first_line: &str) -> (cols: HashMap<usize, String>)
    ensures
        forall|i: usize|
            #[trigger] cols@.contains_key(i) <==> (i < spec_split(first_line@, FIELD_DELIMITER).len()
                && spec_trim(spec_split(first_line@, FIELD_DELIMITER)[i as int]).len() > 0),
        forall|i: usize|
            #[trigger] cols@.contains_key(i) ==> cols@[i]@ == spec_trim(
                spec_split(first_line@, FIELD_DELIMITER)[i as int],
            ),
{
    broadcast use vstd::std_specs::hash::group_hash_axioms;

    let fields = split_fields(first_line);
    let mut cols: HashMap<usize, String> = HashMap::new();
    let mut idx: usize = 0;
    while idx < fields.len()
        invariant
            idx <= fields@.len(),
            fields@.len() == spec_split(first_line@, FIELD_DELIMITER).len(),
            forall|k: int|
                0 <= k < fields@.len() ==> #[trigger] fields@[k]@ == spec_split(
                    first_line@,
                    FIELD_DELIMITER,
                )[k],
            forall|i: usize|
                #[trigger] cols@.contains_key(i) <==> (i < idx && spec_trim(
                    spec_split(first_line@, FIELD_DELIMITER)[i as int],
                ).len() > 0),
            forall|i: usize|
                #[trigger] cols@.contains_key(i) ==> cols@[i]@ == spec_trim(
                    spec_split(first_line@, FIELD_DELIMITER)[i as int],
                ),
        decreases fields@.len() - idx,
    {
        let name = trim_ends(fields[idx].as_str());
        if !name.as_str().is_empty() {
            cols.insert(idx, name);
        }
        idx = idx + 1;
    }
    cols
}

/// One re-shaped line: for each field of the line, in order, the field's
/// label (its column name, or its index as text) paired with the raw field
/// substring.
pub struct DataPacket {
    pub data: Vec<(String, String)>,
}

/// The label a field index carries under a column mapping.
pub open spec fn spec_label(cols: Map<usize, String>, i: usize) -> Seq<char> {
    if cols.contains_key(i) {
        cols[i]@
    } else {
        spec_decimal(i as nat)
    }
}

/// Shape one raw line into a record: split it on the field delimiter and
/// label every field, named or numbered.
pub fn get_datapacket(data_line: String, col_names: &HashMap<usize, String>) -> (p: DataPacket)
    ensures
        p.data@.len() == spec_split(data_line@, FIELD_DELIMITER).len(),
        forall|k: usize|
            #![trigger p.data@[k as int]]
            k < p.data@.len() ==> {
                &&& p.data@[k as int].0@ == spec_label(col_names@, k)
                &&& p.data@[k as int].1@ == spec_split(data_line@, FIELD_DELIMITER)[k as int]
            },
{
    broadcast use vstd::std_specs::hash::group_hash_axioms;

    let fields = split_fields(data_line.as_str());
    let mut data: Vec<(String, String)> = Vec::new();
    let mut idx: usize = 0;
    while idx < fields.len()
        invariant
            idx <= fields@.len(),
            data@.len() == idx,
            fields@.len() == spec_split(data_line@, FIELD_DELIMITER).len(),
            forall|k: int|
                0 <= k < fields@.len() ==> #[trigger] fields@[k]@ == spec_split(
                    data_line@,
                    FIELD_DELIMITER,
                )[k],
            forall|k: usize|
                #![trigger data@[k as int]]
                k < idx ==> {
                    &&& data@[k as int].0@ == spec_label(col_names@, k)
                    &&& data@[k as int].1@ == spec_split(data_line@, FIELD_DELIMITER)[k as int]
                },
        decreases fields@.len() - idx,
    {
        let label: String = match col_names.get(&idx) {
            Some(name) => name.clone(),
            None => index_label(idx),
        };
        data.push((label, fields[idx].clone()));
        idx = idx + 1;
    }
    DataPacket { data }
}

/// The shaping state an RPC server is constructed with: the column mapping
/// derived once from the first line, or the captured failure that kept the
/// mapping from being derived, surfaced to every shaped-subscription request
/// rather than at construction.
pub struct GrpcastServe {
    column_names: HashMap<usize, String>,
    first_line_err: Option<String>,
}

impl GrpcastServe {
    /// The derived column mapping.
    pub closed spec fn columns(&self) -> Map<usize, String> {
        self.column_names@
    }

    /// The captured first-line failure, if deriving the mapping failed.
    pub closed spec fn capture(&self) -> Option<String> {
        self.first_line_err
    }

    /// Construct the shaping state. `None` means no header derivation was
    /// requested; `Some(Ok(line))` derives the mapping from that line;
    /// `Some(Err(e))` captures the failure for later surfacing.
    pub fn new(first_line: Option<Result<String, String>>) -> (s: GrpcastServe)
        ensures
            first_line is None ==> s.columns() == Map::<usize, String>::empty() && s.capture()
                is None,
            (first_line matches Some(Ok(l)) ==> {
                &&& s.capture() is None
                &&& forall|i: usize|
                    #[trigger] s.columns().contains_key(i) <==> (i < spec_split(
                        l@,
                        FIELD_DELIMITER,
                    ).len() && spec_trim(spec_split(l@, FIELD_DELIMITER)[i as int]).len() > 0)
                &&& forall|i: usize|
                    #[trigger] s.columns().contains_key(i) ==> s.columns()[i]@ == spec_trim(
                        spec_split(l@, FIELD_DELIMITER)[i as int],
                    )
            }),
            (first_line matches Some(Err(e)) ==> s.capture() == Some(e) && s.columns()
                == Map::<usize, String>::empty()),
    {
        match first_line {
            None => GrpcastServe { column_names: HashMap::new(), first_line_err: None },
            Some(Ok(l)) => GrpcastServe {
                column_names: derive_columns(l.as_str()),
                first_line_err: None,
            },
            Some(Err(e)) => GrpcastServe { column_names: HashMap::new(), first_line_err: Some(e) },
        }
    }

    /// A copy of the derived column mapping.
    pub fn get_column_names(&self) -> (m: HashMap<usize, String>)
        ensures
            m@ == self.columns(),
    {
        self.column_names.clone()
    }

    /// Whether a shaped-record subscription may proceed: it may if and only
    /// if no first-line failure was captured; otherwise the captured message
    /// is surfaced, every time it is asked.
    pub fn subscribe_csv_gate(&self) -> (r: Result<(), String>)
        ensures
            r is Ok <==> self.capture() is None,
            (r matches Err(m) ==> (self.capture() matches Some(e) && m@ == e@)),
    {
        match &self.first_line_err {
            None => Ok(()),
            Some(e) => Err(e.clone()),
        }
    }
}

} // verus!
