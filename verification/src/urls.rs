//! Extracting feed URLs from a line-oriented listing: the first line is a
//! header and is skipped; of every other line the field before the first
//! comma is taken and must be a well-formed URL, or the whole run is
//! refused before any fetching begins.

use vstd::prelude::*;

verus! {

/// Whether a string is a well-formed URL, and its normalized serialization,
/// as the URL standard's parser decides it.
pub uninterp spec fn normalized_url(s: Seq<char>) -> Option<Seq<char>>;

/// Relies on url's `Url::parse` and `Url::as_str`: whether a string parses
/// as a URL, and the parsed URL's serialization, depend on the characters
/// of the string alone.
#[verifier::external_body]
fn parse_url(s: &str) -> (r: Option<String>)
    ensures
        r matches Some(u) ==> normalized_url(s@) == Some(u@),
        r is None <==> normalized_url(s@) is None,
{
    match url::Url::parse(s) {
        Ok(u) => Some(u.as_str().to_string()),
        Err(_) => None,
    }
}

/// The first position at or after `from` where `c` stands in `s`, or the
/// length of `s` where it does not occur there.
pub open spec fn first_at(s: Seq<char>, c: char, from: nat) -> nat
    decreases s.len() - from,
{
    if from >= s.len() {
        s.len()
    } else if s[from as int] == c {
        from
    } else {
        first_at(s, c, from + 1)
    }
}

/// A position is the first occurrence exactly when nothing before it
/// matches and it matches or is the end.
pub proof fn lemma_first_at_is(s: Seq<char>, c: char, from: nat, k: nat)
    requires
        from <= k <= s.len(),
        forall|j: int| from <= j < k ==> s[j] != c,
        k < s.len() ==> s[k as int] == c,
    ensures
        first_at(s, c, from) == k,
    decreases k - from,
{
    if from < k {
        lemma_first_at_is(s, c, from + 1, k);
    }
}

/// A line without the carriage return that a terminator may have carried.
pub open spec fn strip_cr(l: Seq<char>) -> Seq<char> {
    if l.len() > 0 && l.last() == '\r' {
        l.drop_last()
    } else {
        l
    }
}

/// The lines of a text: each newline ends a line, whose trailing carriage
/// return is dropped; text after the last newline forms a final line only
/// when it is not empty.
pub open spec fn split_lines(s: Seq<char>) -> Seq<Seq<char>>
    decreases s.len(),
{
    if s.len() == 0 {
        Seq::empty()
    } else {
        let i = first_at(s, '\n', 0);
        if i >= s.len() {
            seq![s]
        } else {
            seq![strip_cr(s.take(i as int))] + split_lines(s.skip(i as int + 1))
        }
    }
}

/// The field of a line before its first comma: the whole line where no
/// comma occurs.
pub open spec fn first_field(l: Seq<char>) -> Seq<char> {
    l.take(first_at(l, ',', 0) as int)
}

/// The feed references of a listing: the first field of every line after
/// the header line.
pub open spec fn feed_fields(s: Seq<char>) -> Seq<Seq<char>> {
    let lines = split_lines(s);
    if lines.len() == 0 {
        Seq::empty()
    } else {
        lines.skip(1).map_values(|l: Seq<char>| first_field(l))
    }
}

/// Extract the feed URLs of a listing, in its order: the header line is
/// skipped, each later line's field before the first comma must parse as a
/// URL and is returned in normalized form. The first field that is no URL
/// refuses the whole listing and is handed back.
#[verifier::loop_isolation(false)]
#[verifier::rlimit(100)]
pub fn extract_feed_urls(input: &str) -> (r: Result<Vec<String>, String>)
    ensures
        r matches Ok(urls) ==> ({
            &&& urls@.len() == feed_fields(input@).len()
            &&& forall|k: int|
                0 <= k < urls@.len() ==> normalized_url(#[trigger] feed_fields(input@)[k]) is Some
            &&& forall|k: int|
                0 <= k < urls@.len() ==> urls@[k]@ == normalized_url(
                    #[trigger] feed_fields(input@)[k],
                ).unwrap()
        }),
        r matches Err(bad) ==> (exists|k: int|
            {
                &&& 0 <= k < feed_fields(input@).len()
                &&& normalized_url(#[trigger] feed_fields(input@)[k]) is None
                &&& forall|j: int|
                    0 <= j < k ==> normalized_url(#[trigger] feed_fields(input@)[j]) is Some
                &&& bad@ == feed_fields(input@)[k]
            }),
{
    let ghost s = input@;
    let ghost lines = split_lines(s);
    let ghost fields = feed_fields(s);
    let n = input.unicode_len();
    let mut urls: Vec<String> = Vec::new();
    let mut start: usize = 0;
    let mut line_idx: usize = 0;
    proof {
        assert(s.skip(0) =~= s);
        assert(lines.skip(0) =~= lines);
    }
    while start < n
        invariant
            start <= n,
            n == s.len(),
            line_idx <= start,
            line_idx <= lines.len(),
            split_lines(s.skip(start as int)) == lines.skip(line_idx as int),
            line_idx == 0 ==> start == 0 && urls@.len() == 0,
            line_idx >= 1 ==> urls@.len() == line_idx - 1,
            forall|k: int|
                0 <= k < urls@.len() ==> normalized_url(#[trigger] fields[k]) is Some,
            forall|k: int|
                0 <= k < urls@.len() ==> urls@[k]@ == normalized_url(#[trigger] fields[k]).unwrap(),
        decreases n - start,
    {
        let ghost rem = s.skip(start as int);
        // Find the end of the current line.
        let mut i = start;
        while i < n && input.get_char(i) != '\n'
            invariant
                start <= i <= n,
                forall|j: int| start <= j < i ==> s[j] != '\n',
            decreases n - i,
        {
            i = i + 1;
        }
        proof {
            assert forall|j: int| 0 <= j < i - start implies rem[j] != '\n' by {
                assert(rem[j] == s[start + j]);
            }
            lemma_first_at_is(rem, '\n', 0, (i - start) as nat);
        }
        let ghost irel: nat = (i - start) as nat;
        // Drop a carriage return only where a newline terminated the line.
        let mut end = i;
        if i < n {
            if end > start && input.get_char(end - 1) == '\r' {
                end = end - 1;
            }
        }
        let ghost line = (if i < n {
            strip_cr(rem.take(irel as int))
        } else {
            rem
        });
        proof {
            assert(rem.len() > 0);
            if i < n {
                assert(split_lines(rem) == seq![line] + split_lines(rem.skip(irel as int + 1)));
                assert(split_lines(rem)[0] == line);
                assert(rem.take(irel as int) =~= s.subrange(start as int, i as int));
            } else {
                assert(irel == rem.len());
                assert(split_lines(rem) == seq![rem]);
                assert(split_lines(rem)[0] == line);
                assert(rem =~= s.subrange(start as int, n as int));
            }
            assert(split_lines(rem).len() >= 1);
            assert(lines.skip(line_idx as int).len() == lines.len() - line_idx);
            assert(line_idx < lines.len());
            assert(lines.skip(line_idx as int)[0] == lines[line_idx as int]);
            assert(line == lines[line_idx as int]);
            assert(line =~= s.subrange(start as int, end as int));
        }
        if line_idx > 0 {
            // Find the first comma of the line.
            let mut k = start;
            while k < end && input.get_char(k) != ','
                invariant
                    start <= k <= end,
                    end <= n,
                    forall|j: int| start <= j < k ==> s[j] != ',',
                decreases end - k,
            {
                k = k + 1;
            }
            proof {
                assert forall|j: int| 0 <= j < k - start implies line[j] != ',' by {
                    assert(line[j] == s[start + j]);
                }
                if k < end {
                    assert(line[k - start] == s[k as int]);
                }
                lemma_first_at_is(line, ',', 0, (k - start) as nat);
                assert(first_field(line) =~= s.subrange(start as int, k as int));
                assert(fields[line_idx - 1] == first_field(line)) by {
                    assert(lines.skip(1)[line_idx - 1] == lines[line_idx as int]);
                    assert(fields == lines.skip(1).map_values(|l: Seq<char>| first_field(l)));
                    assert(fields[line_idx - 1] == first_field(lines.skip(1)[line_idx - 1]));
                }
            }
            let field = input.substring_char(start, k);
            match parse_url(field) {
                Some(u) => {
                    urls.push(u);
                },
                None => {
                    let bad = field.to_owned();
                    assert(normalized_url(fields[line_idx - 1]) is None);
                    return Err(bad);
                },
            }
        }
        proof {
            assert(lines.skip(line_idx as int).skip(1) =~= lines.skip(line_idx as int + 1));
            if i < n {
                assert(rem.skip(irel as int + 1) =~= s.skip(i + 1));
                assert(split_lines(rem).skip(1) =~= split_lines(s.skip(i + 1)));
                assert(split_lines(s.skip(i + 1)) =~= lines.skip(line_idx as int + 1));
            } else {
                assert(split_lines(rem).skip(1) =~= Seq::<Seq<char>>::empty());
                assert(s.skip(n as int) =~= Seq::<char>::empty());
                assert(split_lines(s.skip(n as int)) =~= lines.skip(line_idx as int + 1));
            }
        }
        line_idx = line_idx + 1;
        start = if i < n {
            i + 1
        } else {
            n
        };
    }
    proof {
        assert(s.skip(n as int) =~= Seq::<char>::empty());
        assert(lines.skip(line_idx as int).len() == 0);
        if lines.len() == 0 {
            assert(fields.len() == 0);
        } else {
            assert(urls@.len() == fields.len());
        }
    }
    Ok(urls)
}

} // verus!
