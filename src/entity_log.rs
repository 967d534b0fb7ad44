use vstd::prelude::*;
use vstd::string::StringExecFns;
use vstd::utf8::encode_utf8;

verus! {

/// Past this many bytes, the log text is cleared before the next line goes in.
pub const LOG_LIMIT: usize = 100;

/// Length in bytes of a text's UTF-8 encoding.
pub open spec fn byte_len(s: Seq<char>) -> nat {
    encode_utf8(s).len()
}

/// The log after one line: cleared first when over the limit, then a line
/// break and the label are added.
pub open spec fn log_line(content: Seq<char>, label: Seq<char>) -> Seq<char> {
    let kept = if byte_len(content) > LOG_LIMIT {
        Seq::<char>::empty()
    } else {
        content
    };
    kept + seq!['\n'] + label
}

/// The log after one line for each label, in order.
pub open spec fn log_lines(content: Seq<char>, labels: Seq<Seq<char>>) -> Seq<char>
    decreases labels.len(),
{
    if labels.len() == 0 {
        content
    } else {
        log_line(log_lines(content, labels.drop_last()), labels.last())
    }
}

/// Appends one line per label to a scrolling text log, clearing the log
/// whenever it has grown past `LOG_LIMIT` bytes.
pub fn append_log_lines(content: &mut String, labels: &Vec<String>)
    ensures
        final(content)@ == log_lines(old(content)@, labels@.map_values(|l: String| l@)),
{
    let ghost start = content@;
    let ghost all = labels@.map_values(|l: String| l@);
    let mut i: usize = 0;
    while i < labels.len()
        invariant
            i <= labels@.len(),
            all == labels@.map_values(|l: String| l@),
            content@ == log_lines(start, all.subrange(0, i as int)),
        decreases labels@.len() - i,
    {
        let ghost before = content@;
        let n = content.as_str().as_bytes().len();
        assert(n == byte_len(before));
        if n > LOG_LIMIT {
            *content = String::new();
        }
        let ghost kept = content@;
        proof {
            reveal_strlit("\n");
        }
        assert("\n"@ =~= seq!['\n']);
        content.append("\n");
        content.append(labels[i].as_str());
        proof {
            let next = all.subrange(0, i + 1);
            assert(next.drop_last() =~= all.subrange(0, i as int));
            assert(next.last() == labels@[i as int]@);
            assert(content@ =~= log_line(before, labels@[i as int]@));
        }
        i = i + 1;
    }
    assert(all.subrange(0, labels@.len() as int) =~= all);
}

} // verus!
