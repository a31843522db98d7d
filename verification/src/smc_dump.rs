use vstd::prelude::*;

verus! {

/// `s` filled with spaces on the right up to `width` characters; a longer `s`
/// is kept whole (the `{:<width}` rule of Rust's formatter).
pub open spec fn pad_right(s: Seq<char>, width: nat) -> Seq<char> {
    if s.len() >= width {
        s
    } else {
        s + Seq::new((width - s.len()) as nat, |_i: int| ' ')
    }
}

/// One line of the SMC key listing, in the layout of `iSMC raw`:
/// `  KEY  [TYPE]  DECODED (bytes HEX)`, where the type is padded to four
/// characters and `DECODED ` is left out when nothing could be decoded.
pub open spec fn spec_smc_dump_line(
    key: Seq<char>,
    data_type: Seq<char>,
    decoded: Seq<char>,
    hex: Seq<char>,
) -> Seq<char> {
    let head = seq![' ', ' '] + key + seq![' ', ' ', '['] + pad_right(data_type, 4) + seq![
        ']',
        ' ',
        ' ',
    ];
    let value = if decoded.len() == 0 {
        Seq::<char>::empty()
    } else {
        decoded + seq![' ']
    };
    head + value + seq!['(', 'b', 'y', 't', 'e', 's', ' '] + hex + seq![')']
}

/// Formats one SMC key of a dump: its name, its data type, the decoded value
/// (empty where the type is not understood) and the raw bytes in hex.
pub fn smc_dump_line(key: &str, data_type: &str, decoded: &str, hex: &str) -> (line: String)
    ensures
        line@ == spec_smc_dump_line(key@, data_type@, decoded@, hex@),
{
    let mut line = String::new();
    proof {
        reveal_strlit("  ");
        reveal_strlit("  [");
        reveal_strlit(" ");
        reveal_strlit("]  ");
        reveal_strlit("(bytes ");
        reveal_strlit(")");
    }
    line.append("  ");
    line.append(key);
    line.append("  [");
    line.append(data_type);
    let ghost prefix = seq![' ', ' '] + key@ + seq![' ', ' ', '['] + data_type@;
    assert(line@ =~= prefix);
    let len = data_type.unicode_len();
    let mut i = len;
    while i < 4
        invariant
            len == data_type@.len(),
            len <= i,
            i <= 4 || i == len,
            line@ =~= prefix + Seq::new((i - len) as nat, |_j: int| ' '),
        decreases 4 - i,
    {
        line.append(" ");
        proof {
            reveal_strlit(" ");
        }
        assert(line@ =~= prefix + Seq::new((i + 1 - len) as nat, |_j: int| ' '));
        i = i + 1;
    }
    assert(seq![' ', ' '] + key@ + seq![' ', ' ', '['] + pad_right(data_type@, 4) =~= line@);
    line.append("]  ");
    if !decoded.is_empty() {
        line.append(decoded);
        line.append(" ");
    }
    line.append("(bytes ");
    line.append(hex);
    line.append(")");
    assert(line@ =~= spec_smc_dump_line(key@, data_type@, decoded@, hex@));
    line
}

/// The note printed instead of a listing when the SMC returned no keys.
pub open spec fn spec_smc_empty_note() -> Seq<char> {
    "SMC: no keys returned (kernel may have refused enumeration)"@
}

/// The whole SMC listing for `entries`, each given as (key, data type, decoded
/// value, hex bytes): one line per entry, in order, and no note; or, where there
/// are no entries, no lines and the note that the SMC returned none.
pub fn smc_dump_output(entries: &Vec<(String, String, String, String)>) -> (r: (
    Vec<String>,
    Option<String>,
))
    ensures
        entries@.len() == 0 ==> r.0@.len() == 0 && r.1 is Some && r.1->0@ == spec_smc_empty_note(),
        entries@.len() == 0 ==> r.1->0@
            == "SMC: no keys returned (kernel may have refused enumeration)"@,
        entries@.len() > 0 ==> r.1 is None,
        r.0@.len() == entries@.len(),
        forall|i: int|
            0 <= i < entries@.len() ==> #[trigger] r.0@[i]@ == spec_smc_dump_line(
                entries@[i].0@,
                entries@[i].1@,
                entries@[i].2@,
                entries@[i].3@,
            ),
{
    let mut lines: Vec<String> = Vec::new();
    if entries.len() == 0 {
        return (lines, Some(String::from_str("SMC: no keys returned (kernel may have refused enumeration)")));
    }
    let n = entries.len();
    for i in 0..n
        invariant
            n == entries@.len(),
            lines@.len() == i,
            forall|j: int|
                0 <= j < i ==> #[trigger] lines@[j]@ == spec_smc_dump_line(
                    entries@[j].0@,
                    entries@[j].1@,
                    entries@[j].2@,
                    entries@[j].3@,
                ),
    {
        let e = &entries[i];
        let line = smc_dump_line(e.0.as_str(), e.1.as_str(), e.2.as_str(), e.3.as_str());
        lines.push(line);
    }
    (lines, None)
}

/// The error a failed SMC connection is reported with: `SMC open failed: `
/// followed by the connection's own error text.
pub fn smc_open_error(e: &str) -> (msg: String)
    ensures
        msg@ == "SMC open failed: "@ + e@,
{
    let mut msg = String::from_str("SMC open failed: ");
    msg.append(e);
    msg
}

/// The message a failed IOReport set-up is reported with: the error text,
/// then a line saying the Mac may lack the channels.
pub fn ioreport_init_error(e: &str) -> (msg: String)
    ensures
        msg@ == "Failed to initialize IOReport: "@ + e@
            + "\nThis Mac may not support the required IOReport channels."@,
{
    let mut msg = String::from_str("Failed to initialize IOReport: ");
    msg.append(e);
    msg.append("\nThis Mac may not support the required IOReport channels.");
    msg
}

/// The full layout of a listing line, character by character, for any key,
/// type, decoded value and hex bytes, whatever their lengths: two spaces, the
/// key, two spaces, `[`, the type padded with spaces to at least four
/// characters, `]`, two spaces, then the decoded value and a space where it is
/// non-empty, and last `(bytes `, the whole hex text and `)`.
pub proof fn lemma_smc_dump_line_layout(
    key: Seq<char>,
    data_type: Seq<char>,
    decoded: Seq<char>,
    hex: Seq<char>,
)
    ensures
        ({
            let line = spec_smc_dump_line(key, data_type, decoded, hex);
            let k = key.len() as int;
            let t = data_type.len() as int;
            let w = if t >= 4 { t } else { 4 };
            let d = decoded.len() as int;
            let v = if d == 0 { 0 } else { d + 1 };
            let n = line.len() as int;
            let h = hex.len() as int;
            &&& n == k + w + v + h + 16
            &&& line[0] == ' ' && line[1] == ' '
            &&& line.subrange(2, k + 2) == key
            &&& line[k + 2] == ' ' && line[k + 3] == ' ' && line[k + 4] == '['
            &&& line.subrange(k + 5, k + 5 + t) == data_type
            &&& forall|j: int| k + 5 + t <= j < k + 5 + w ==> #[trigger] line[j] == ' '
            &&& line[k + 5 + w] == ']' && line[k + 6 + w] == ' ' && line[k + 7 + w] == ' '
            &&& d > 0 ==> line.subrange(k + w + 8, k + w + 8 + d) == decoded
                && line[k + w + 8 + d] == ' '
            &&& line.subrange(n - h - 8, n - h - 1) == seq!['(', 'b', 'y', 't', 'e', 's', ' ']
            &&& line.subrange(n - h - 1, n - 1) == hex
            &&& line[n - 1] == ')'
        }),
{
    let line = spec_smc_dump_line(key, data_type, decoded, hex);
    let k = key.len() as int;
    let t = data_type.len() as int;
    let w = if t >= 4 { t } else { 4 };
    let d = decoded.len() as int;
    let h = hex.len() as int;
    let padded = pad_right(data_type, 4);
    assert(padded.len() == w);
    assert(padded.subrange(0, t) =~= data_type);
    assert forall|j: int| t <= j < w implies #[trigger] padded[j] == ' ' by {}
    let head = seq![' ', ' '] + key + seq![' ', ' ', '['] + padded + seq![']', ' ', ' '];
    assert(head.len() == k + w + 8);
    let value = if d == 0 {
        Seq::<char>::empty()
    } else {
        decoded + seq![' ']
    };
    let tail = seq!['(', 'b', 'y', 't', 'e', 's', ' '] + hex + seq![')'];
    assert(line =~= head + value + tail);
    let n = line.len() as int;
    let v = value.len() as int;
    assert(line.subrange(0, k + w + 8) =~= head);
    assert(line.subrange(k + w + 8, k + w + 8 + v) =~= value);
    assert(line.subrange(k + w + 8 + v, n) =~= tail);
    assert(head.subrange(2, k + 2) =~= key);
    assert(line.subrange(2, k + 2) =~= key);
    assert(line.subrange(k + 5, k + 5 + t) =~= data_type);
    assert forall|j: int| k + 5 + t <= j < k + 5 + w implies #[trigger] line[j] == ' ' by {
        assert(line[j] == head[j]);
        assert(head[j] == padded[j - k - 5]);
    }
    if d > 0 {
        assert(line.subrange(k + w + 8, k + w + 8 + d) =~= decoded);
        assert(line[k + w + 8 + d] == value[d]);
    }
    assert(line.subrange(n - h - 8, n - h - 1) =~= seq!['(', 'b', 'y', 't', 'e', 's', ' ']);
    assert(line.subrange(n - h - 1, n - 1) =~= hex);
}

/// Column layout of the SMC listing: with a data type of at most four
/// characters, the type sits between `[` and `]` at fixed offsets from the end
/// of the key, and the value column (the decoded value, or `(bytes` where there
/// is none) starts three characters after the `]`, so keys of one width line up.
pub proof fn lemma_smc_dump_line_columns(
    key: Seq<char>,
    data_type: Seq<char>,
    decoded: Seq<char>,
    hex: Seq<char>,
)
    requires
        data_type.len() <= 4,
    ensures
        ({
            let line = spec_smc_dump_line(key, data_type, decoded, hex);
            let k = key.len() as int;
            &&& line.subrange(2, k + 2) == key
            &&& line[k + 4] == '['
            &&& line[k + 9] == ']'
            &&& line.subrange(k + 5, k + 5 + data_type.len()) == data_type
            &&& decoded.len() > 0 ==> line.subrange(k + 12, k + 12 + decoded.len()) == decoded
            &&& decoded.len() == 0 ==> line[k + 12] == '('
        }),
{
    let line = spec_smc_dump_line(key, data_type, decoded, hex);
    let k = key.len() as int;
    let padded = pad_right(data_type, 4);
    assert(padded.len() == 4);
    let head = seq![' ', ' '] + key + seq![' ', ' ', '['] + padded + seq![']', ' ', ' '];
    assert(head.len() == k + 12);
    assert(line.subrange(0, k + 12) =~= head);
    assert(head.subrange(2, k + 2) =~= key);
    assert(line.subrange(2, k + 2) =~= key);
    assert(head[k + 4] == '[');
    assert(head[k + 9] == ']');
    assert(padded.subrange(0, data_type.len() as int) =~= data_type);
    assert(line.subrange(k + 5, k + 5 + data_type.len()) =~= data_type);
    if decoded.len() > 0 {
        assert(line.subrange(k + 12, k + 12 + decoded.len()) =~= decoded);
    }
}

} // verus!
