//! Line-level building blocks of a control file, shared by both record shapes.
use vstd::prelude::*;

verus! {

/// The characters of each string of a list.
pub open spec fn texts_of(v: Seq<String>) -> Seq<Seq<char>> {
    v.map_values(|s: String| s@)
}

/// The characters of each string slice of a list.
pub open spec fn strs_of(v: Seq<&str>) -> Seq<Seq<char>> {
    v.map_values(|s: &str| s@)
}

/// The characters of an optional string.
pub open spec fn text_of(o: Option<String>) -> Option<Seq<char>> {
    match o {
        Some(s) => Some(s@),
        None => None,
    }
}

/// A line break.
pub open spec fn newline() -> Seq<char> {
    seq!['\n']
}

/// One `Label: value` line; `label` carries its own colon and padding.
pub open spec fn line(label: Seq<char>, value: Seq<char>) -> Seq<char> {
    label + value + newline()
}

/// The token that a boolean field renders as.
pub open spec fn flag_text(b: bool) -> Seq<char> {
    if b {
        seq!['y', 'e', 's']
    } else {
        seq!['n', 'o']
    }
}

/// The entries of a list separated by `", "`.
pub open spec fn joined(items: Seq<Seq<char>>) -> Seq<char>
    decreases items.len(),
{
    if items.len() == 0 {
        Seq::empty()
    } else if items.len() == 1 {
        items[0]
    } else {
        joined(items.drop_last()) + seq![',', ' '] + items.last()
    }
}

/// The strings of a sequence written one after the other.
pub open spec fn concat_all(parts: Seq<Seq<char>>) -> Seq<char>
    decreases parts.len(),
{
    if parts.len() == 0 {
        Seq::empty()
    } else {
        concat_all(parts.drop_last()) + parts.last()
    }
}

/// Compact rendering of an optional field: its line if present, nothing if absent.
pub open spec fn optional_line(label: Seq<char>, value: Option<Seq<char>>) -> Seq<char> {
    match value {
        Some(v) => line(label, v),
        None => Seq::empty(),
    }
}

/// Compact rendering of a list field: one line of joined entries, nothing if empty.
pub open spec fn joined_line(label: Seq<char>, items: Seq<Seq<char>>) -> Seq<char> {
    if items.len() == 0 {
        Seq::empty()
    } else {
        line(label, joined(items))
    }
}

/// Fixed-slot rendering of an optional field: its line if present, a blank line if absent.
pub open spec fn slot_line(label: Seq<char>, value: Option<Seq<char>>) -> Seq<char> {
    match value {
        Some(v) => line(label, v),
        None => newline(),
    }
}

/// One line per entry, the label repeated on each.
pub open spec fn entry_lines(label: Seq<char>, items: Seq<Seq<char>>) -> Seq<char>
    decreases items.len(),
{
    if items.len() == 0 {
        Seq::empty()
    } else {
        entry_lines(label, items.drop_last()) + line(label, items.last())
    }
}

/// Fixed-slot rendering of a list field: a blank line, then one line per entry.
pub open spec fn entry_block(label: Seq<char>, items: Seq<Seq<char>>) -> Seq<char> {
    newline() + entry_lines(label, items)
}

/// One `Label: value` line.
pub fn field_line(label: &str, value: &str) -> (r: String)
    ensures
        r@ == line(label@, value@),
{
    let mut r = String::from_str(label);
    r.append(value);
    r.append("\n");
    proof {
        reveal_strlit("\n");
        assert("\n"@ =~= newline());
    }
    r
}

/// The line of a boolean field: `yes` or `no`.
pub fn flag_field_line(label: &str, value: bool) -> (r: String)
    ensures
        r@ == line(label@, flag_text(value)),
{
    proof {
        reveal_strlit("yes");
        reveal_strlit("no");
        assert("yes"@ =~= flag_text(true));
        assert("no"@ =~= flag_text(false));
    }
    if value {
        field_line(label, "yes")
    } else {
        field_line(label, "no")
    }
}

/// The compact line of an optional field: empty when absent.
pub fn optional_field_line(label: &str, value: &Option<String>) -> (r: String)
    ensures
        r@ == optional_line(label@, text_of(*value)),
{
    match value {
        Some(v) => field_line(label, v.as_str()),
        None => String::new(),
    }
}

/// The fixed-slot line of an optional field: a blank line when absent.
pub fn slot_field_line(label: &str, value: &Option<String>) -> (r: String)
    ensures
        r@ == slot_line(label@, text_of(*value)),
{
    match value {
        Some(v) => field_line(label, v.as_str()),
        None => {
            proof {
                reveal_strlit("\n");
                assert("\n"@ =~= newline());
            }
            String::from_str("\n")
        },
    }
}

/// Writes the entries of a list separated by `", "`.
pub fn join_entries(items: &Vec<String>) -> (r: String)
    ensures
        r@ == joined(texts_of(items@)),
{
    let ghost all = texts_of(items@);
    let mut r = String::new();
    let mut i: usize = 0;
    proof {
        reveal_strlit(", ");
        assert(all.take(0) =~= Seq::<Seq<char>>::empty());
    }
    while i < items.len()
        invariant
            i <= items.len(),
            all == texts_of(items@),
            r@ == joined(all.take(i as int)),
        decreases items.len() - i,
    {
        let ghost before = r@;
        if i > 0 {
            r.append(", ");
        }
        r.append(items[i].as_str());
        proof {
            let next = all.take(i + 1);
            assert(next.drop_last() =~= all.take(i as int));
            assert(next.last() == items@[i as int]@);
            if i == 0 {
                assert(r@ =~= joined(next));
            } else {
                reveal_strlit(", ");
                assert(", "@ =~= seq![',', ' ']);
                assert(r@ =~= joined(next));
            }
        }
        i = i + 1;
    }
    proof {
        assert(all.take(items.len() as int) =~= all);
    }
    r
}

/// The compact line of a list field: empty when the list is.
pub fn joined_field_line(label: &str, items: &Vec<String>) -> (r: String)
    ensures
        r@ == joined_line(label@, texts_of(items@)),
{
    if items.len() == 0 {
        String::new()
    } else {
        let entries = join_entries(items);
        field_line(label, entries.as_str())
    }
}

/// The fixed-slot block of a list field.
pub fn entry_block_lines(label: &str, items: &Vec<String>) -> (r: String)
    ensures
        r@ == entry_block(label@, texts_of(items@)),
{
    let ghost all = texts_of(items@);
    proof {
        reveal_strlit("\n");
        assert("\n"@ =~= newline());
        assert(all.take(0) =~= Seq::<Seq<char>>::empty());
    }
    let mut r = String::from_str("\n");
    let mut i: usize = 0;
    while i < items.len()
        invariant
            i <= items.len(),
            all == texts_of(items@),
            r@ == newline() + entry_lines(label@, all.take(i as int)),
        decreases items.len() - i,
    {
        let l = field_line(label, items[i].as_str());
        r.append(l.as_str());
        proof {
            let next = all.take(i + 1);
            assert(next.drop_last() =~= all.take(i as int));
            assert(r@ =~= newline() + entry_lines(label@, next));
        }
        i = i + 1;
    }
    proof {
        assert(all.take(items.len() as int) =~= all);
    }
    r
}

/// Writes the parts one after the other.
pub fn concat_parts(parts: &Vec<String>) -> (r: String)
    ensures
        r@ == concat_all(texts_of(parts@)),
{
    let ghost all = texts_of(parts@);
    let mut r = String::new();
    let mut i: usize = 0;
    proof {
        assert(all.take(0) =~= Seq::<Seq<char>>::empty());
    }
    while i < parts.len()
        invariant
            i <= parts.len(),
            all == texts_of(parts@),
            r@ == concat_all(all.take(i as int)),
        decreases parts.len() - i,
    {
        r.append(parts[i].as_str());
        proof {
            let next = all.take(i + 1);
            assert(next.drop_last() =~= all.take(i as int));
            assert(r@ =~= concat_all(next));
        }
        i = i + 1;
    }
    proof {
        assert(all.take(parts.len() as int) =~= all);
    }
    r
}

/// Appends a copy of each entry, in order, to the end of `list`.
pub fn extend_entries(list: &mut Vec<String>, entries: Vec<&str>)
    ensures
        texts_of(final(list)@) == texts_of(old(list)@) + strs_of(entries@),
{
    let ghost start = texts_of(list@);
    let mut i: usize = 0;
    while i < entries.len()
        invariant
            i <= entries.len(),
            texts_of(list@) == start + strs_of(entries@).take(i as int),
        decreases entries.len() - i,
    {
        let e = String::from_str(entries[i]);
        let ghost prev = list@;
        list.push(e);
        proof {
            assert(texts_of(list@) =~= texts_of(prev).push(e@));
            assert(strs_of(entries@).take(i + 1) =~= strs_of(entries@).take(i as int).push(e@));
            assert(texts_of(list@) =~= start + strs_of(entries@).take(i + 1));
        }
        i = i + 1;
    }
    proof {
        assert(strs_of(entries@).take(entries.len() as int) =~= strs_of(entries@));
    }
}

/// Writing one more part extends the text by that part.
pub proof fn lemma_concat_all_push(parts: Seq<Seq<char>>, last: Seq<char>)
    ensures
        #[trigger] concat_all(parts.push(last)) == concat_all(parts) + last,
{
    assert(parts.push(last).drop_last() =~= parts);
}

/// The text of two runs of parts is the text of the first followed by that of the second.
pub proof fn lemma_concat_all_append(a: Seq<Seq<char>>, b: Seq<Seq<char>>)
    ensures
        concat_all(a + b) == concat_all(a) + concat_all(b),
    decreases b.len(),
{
    if b.len() == 0 {
        assert(a + b =~= a);
        assert(concat_all(a) + concat_all(b) =~= concat_all(a));
    } else {
        lemma_concat_all_append(a, b.drop_last());
        assert((a + b).drop_last() =~= a + b.drop_last());
        assert((a + b).last() == b.last());
        assert(concat_all(a + b) =~= concat_all(a) + concat_all(b));
    }
}

/// The text of the parts, split around the part at `i`.
pub proof fn lemma_concat_all_split(parts: Seq<Seq<char>>, i: int)
    requires
        0 <= i < parts.len(),
    ensures
        concat_all(parts) == concat_all(parts.take(i)) + parts[i] + concat_all(parts.skip(i + 1)),
{
    let front = parts.take(i).push(parts[i]);
    assert(parts =~= front + parts.skip(i + 1));
    lemma_concat_all_append(front, parts.skip(i + 1));
    lemma_concat_all_push(parts.take(i), parts[i]);
}

/// Parts that are all empty give an empty text.
pub proof fn lemma_concat_all_blank(parts: Seq<Seq<char>>)
    requires
        forall|i: int| 0 <= i < parts.len() ==> parts[i].len() == 0,
    ensures
        concat_all(parts) == Seq::<char>::empty(),
    decreases parts.len(),
{
    if parts.len() > 0 {
        lemma_concat_all_blank(parts.drop_last());
        assert(concat_all(parts) =~= Seq::<char>::empty());
    }
}

/// Parts that are each one blank line give that many newlines.
pub proof fn lemma_concat_all_blank_lines(parts: Seq<Seq<char>>)
    requires
        forall|i: int| 0 <= i < parts.len() ==> parts[i] == newline(),
    ensures
        concat_all(parts) == Seq::new(parts.len(), |i: int| '\n'),
    decreases parts.len(),
{
    if parts.len() > 0 {
        lemma_concat_all_blank_lines(parts.drop_last());
        assert(concat_all(parts) =~= Seq::new(parts.len(), |i: int| '\n'));
    }
}

} // verus!
