use vstd::prelude::*;

verus! {

/// ASCII whitespace: tab, line feed, vertical tab, form feed, carriage
/// return, space. The delegate's machine-readable orphan listing separates
/// package names with these bytes.
pub open spec fn is_ws(b: u8) -> bool {
    b == 9 || b == 10 || b == 11 || b == 12 || b == 13 || b == 32
}

/// Runtime test matching `is_ws`.
pub fn is_whitespace_byte(b: u8) -> (r: bool)
    ensures
        r == is_ws(b),
{
    b == 9 || b == 10 || b == 11 || b == 12 || b == 13 || b == 32
}

/// The whitespace-delimited fields of a byte sequence, in order, defined by
/// a left-to-right scan: a whitespace byte closes the field in progress, any
/// other byte starts a new field or extends the one in progress.
pub open spec fn fields_of(s: Seq<u8>) -> Seq<Seq<u8>>
    decreases s.len(),
{
    if s.len() == 0 {
        Seq::empty()
    } else {
        let rest = fields_of(s.drop_last());
        let b = s.last();
        if is_ws(b) {
            rest
        } else if s.len() == 1 || is_ws(s[s.len() - 2]) {
            rest.push(seq![b])
        } else {
            rest.update(rest.len() - 1, rest.last().push(b))
        }
    }
}

/// Every field is a real token: non-empty and free of whitespace; and a
/// sequence ending in a non-whitespace byte has at least one field.
pub proof fn lemma_fields_wf(s: Seq<u8>)
    ensures
        s.len() > 0 && !is_ws(s.last()) ==> fields_of(s).len() > 0,
        forall|i: int| 0 <= i < fields_of(s).len() ==> (#[trigger] fields_of(s)[i]).len() > 0,
        forall|i: int, j: int|
            0 <= i < fields_of(s).len() && 0 <= j < fields_of(s)[i].len() ==> !is_ws(
                #[trigger] fields_of(s)[i][j],
            ),
    decreases s.len(),
{
    if s.len() > 0 {
        lemma_fields_wf(s.drop_last());
        let rest = fields_of(s.drop_last());
        let b = s.last();
        if !is_ws(b) && s.len() > 1 && !is_ws(s[s.len() - 2]) {
            assert(s.drop_last().last() == s[s.len() - 2]);
            assert(rest.len() > 0);
            assert(fields_of(s) == rest.update(rest.len() - 1, rest.last().push(b)));
        }
    }
}

/// A byte sequence has no fields exactly when it holds nothing but
/// whitespace.
pub proof fn lemma_fields_empty(s: Seq<u8>)
    ensures
        fields_of(s).len() == 0 <==> (forall|i: int| 0 <= i < s.len() ==> is_ws(#[trigger] s[i])),
    decreases s.len(),
{
    if s.len() > 0 {
        lemma_fields_empty(s.drop_last());
        let rest = fields_of(s.drop_last());
        let b = s.last();
        if is_ws(b) {
            assert(forall|i: int| 0 <= i < s.len() - 1 ==> s.drop_last()[i] == #[trigger] s[i]);
            assert(fields_of(s).len() == 0 ==> forall|i: int|
                0 <= i < s.len() ==> is_ws(#[trigger] s[i]));
        } else if s.len() == 1 || is_ws(s[s.len() - 2]) {
            assert(!is_ws(s[s.len() - 1]));
        } else {
            lemma_fields_wf(s.drop_last());
            assert(s.drop_last().last() == s[s.len() - 2]);
            assert(rest.len() > 0);
            assert(!is_ws(s[s.len() - 1]));
        }
    }
}

/// A sequence of byte tokens, each viewed as a byte sequence.
pub open spec fn tokens_view(ts: Seq<Vec<u8>>) -> Seq<Seq<u8>> {
    ts.map_values(|t: Vec<u8>| t@)
}

proof fn lemma_tokens_view_push(s: Seq<Vec<u8>>, x: Vec<u8>)
    ensures
        tokens_view(s.push(x)) == tokens_view(s).push(x@),
{
    assert(tokens_view(s.push(x)) =~~= tokens_view(s).push(x@));
}

/// Split captured output into its whitespace-delimited byte fields.
pub fn tokenize(out: &Vec<u8>) -> (r: Vec<Vec<u8>>)
    ensures
        tokens_view(r@) == fields_of(out@),
{
    let mut done: Vec<Vec<u8>> = Vec::new();
    let mut cur: Vec<u8> = Vec::new();
    let mut i: usize = 0;
    proof {
        assert(out@.take(0) =~= Seq::<u8>::empty());
        assert(tokens_view(done@) =~~= Seq::<Seq<u8>>::empty());
    }
    while i < out.len()
        invariant
            i <= out.len(),
            cur@.len() == 0 ==> fields_of(out@.take(i as int)) == tokens_view(done@) && (i == 0
                || is_ws(out@[i as int - 1])),
            cur@.len() > 0 ==> fields_of(out@.take(i as int)) == tokens_view(done@).push(cur@)
                && i > 0 && !is_ws(out@[i as int - 1]),
        decreases out.len() - i,
    {
        let ghost prefix = out@.take(i as int);
        let ghost longer = out@.take(i as int + 1);
        proof {
            assert(longer.drop_last() =~= prefix);
            assert(longer.last() == out@[i as int]);
        }
        let b = out[i];
        if is_whitespace_byte(b) {
            if cur.len() > 0 {
                proof {
                    lemma_tokens_view_push(done@, cur);
                }
                done.push(cur);
                cur = Vec::new();
            }
            proof {
                assert(fields_of(longer) == fields_of(prefix));
            }
        } else {
            if cur.len() == 0 {
                proof {
                    assert(fields_of(longer) == fields_of(prefix).push(seq![b]));
                    assert(cur@.push(b) =~= seq![b]);
                }
            } else {
                proof {
                    let rest = fields_of(prefix);
                    assert(longer[longer.len() - 2] == out@[i as int - 1]);
                    assert(fields_of(longer) == rest.update(
                        rest.len() - 1,
                        rest.last().push(b),
                    ));
                    assert(rest.update(rest.len() - 1, rest.last().push(b)) =~~= tokens_view(
                        done@,
                    ).push(cur@.push(b)));
                }
            }
            cur.push(b);
        }
        i += 1;
    }
    proof {
        assert(out@.take(out@.len() as int) =~= out@);
    }
    if cur.len() > 0 {
        proof {
            lemma_tokens_view_push(done@, cur);
        }
        done.push(cur);
    }
    done
}

/// The characters that lossy UTF-8 decoding gives for a byte sequence.
pub uninterp spec fn lossy_chars(b: Seq<u8>) -> Seq<char>;

/// Relies on `String::from_utf8_lossy`: the characters produced depend on
/// the bytes alone (valid UTF-8 decodes as itself; invalid sequences become
/// replacement characters).
#[verifier::external_body]
fn lossy_string(b: &Vec<u8>) -> (r: String)
    ensures
        r@ == lossy_chars(b@),
{
    String::from_utf8_lossy(b).into_owned()
}

/// Parse the delegate's machine-readable orphan listing: the
/// whitespace-delimited package names, in the order emitted, duplicates
/// kept.
pub fn parse_orphans(out: &Vec<u8>) -> (r: Vec<String>)
    ensures
        r@.len() == fields_of(out@).len(),
        forall|j: int| 0 <= j < r@.len() ==> r@[j]@ == lossy_chars(fields_of(out@)[j]),
        r@.len() == 0 <==> (forall|i: int| 0 <= i < out@.len() ==> is_ws(#[trigger] out@[i])),
{
    proof {
        lemma_fields_empty(out@);
    }
    let tokens = tokenize(out);
    let mut names: Vec<String> = Vec::new();
    let mut k: usize = 0;
    while k < tokens.len()
        invariant
            k <= tokens.len(),
            tokens_view(tokens@) == fields_of(out@),
            names@.len() == k,
            forall|j: int| 0 <= j < k ==> names@[j]@ == lossy_chars(fields_of(out@)[j]),
        decreases tokens.len() - k,
    {
        let name = lossy_string(&tokens[k]);
        proof {
            assert(tokens_view(tokens@)[k as int] == tokens@[k as int]@);
        }
        names.push(name);
        k += 1;
    }
    proof {
        assert(tokens_view(tokens@).len() == tokens@.len());
    }
    names
}

} // verus!
