//! The command line of `ArmaReforgerServer.exe`.
use crate::error::Error;
use crate::text::{trim, trimmed};
use vstd::prelude::*;
use vstd::string::*;

verus! {

/// The texts of a sequence of strings.
pub open spec fn texts(v: Seq<String>) -> Seq<Seq<char>> {
    v.map_values(|s: String| s@)
}

/// The words that `shell_words::split` makes of a text, or `None` where it
/// reports an unmatched quote.
pub uninterp spec fn shell_split(s: Seq<char>) -> Option<Seq<Seq<char>>>;

/// The characters that separate words for `shell_words::split`.
pub open spec fn is_word_break(c: char) -> bool {
    c == ' ' || c == '\t' || c == '\n'
}

/// Text without quotes, backslashes or comment signs: nothing in it is
/// special to `shell_words::split` but the breaks between words.
pub open spec fn is_plain(s: Seq<char>) -> bool {
    forall|i: int|
        0 <= i < s.len() ==> s[i] != '\'' && s[i] != '"' && s[i] != '\\' && s[i] != '#'
}

/// The words of `s`: its longest runs of characters that are not word breaks,
/// in the order they occur.
pub open spec fn plain_words(s: Seq<char>) -> Seq<Seq<char>>
    decreases s.len(),
{
    if s.len() == 0 {
        Seq::empty()
    } else {
        let rest = plain_words(s.drop_last());
        let c = s.last();
        if is_word_break(c) {
            rest
        } else if s.len() >= 2 && !is_word_break(s[s.len() - 2]) {
            rest.drop_last().push(rest.last().push(c))
        } else {
            rest.push(seq![c])
        }
    }
}

/// Calls `shell_words::split`. Claims that it succeeds exactly when
/// `shell_split` gives words, and then returns those words; that its error's
/// message is "missing closing quote", the only text that
/// `shell_words::ParseError` displays; and that on plain text, where its
/// state machine only moves between the delimiter and the unquoted-word
/// states, it succeeds with the text's words in order.
#[verifier::external_body]
fn split_words(s: &str) -> (r: Result<Vec<String>, String>)
    ensures
        r is Ok <==> shell_split(s@) is Some,
        r matches Ok(words) ==> texts(words@) == shell_split(s@)->0,
        is_plain(s@) ==> r is Ok,
        r matches Ok(words) ==> (is_plain(s@) ==> texts(words@) == plain_words(s@)),
        r matches Err(m) ==> m@ == "missing closing quote"@,
{
    shell_words::split(s).map_err(|e| e.to_string())
}

/// The fixed part of the server's command line.
pub open spec fn base_argv(
    binary: Seq<char>,
    runtime_config: Seq<char>,
    profile: Seq<char>,
    workshop: Seq<char>,
) -> Seq<Seq<char>> {
    seq![
        binary,
        "-config"@,
        runtime_config,
        "-profile"@,
        profile,
        "-addonDownloadDir"@,
        workshop,
        "-addonsDir"@,
        workshop,
    ]
}

/// The server's command line from its fixed part and what splitting
/// `arma.params` gave: the words are appended after the fixed part; a
/// splitting error is a configuration error that names `arma.params`.
pub fn argv_from_split(
    binary: &str,
    runtime_config: &str,
    profile: &str,
    workshop: &str,
    split: Result<Vec<String>, String>,
) -> (res: Result<Vec<String>, Error>)
    ensures
        match split {
            Ok(words) => res matches Ok(v) && texts(v@) == base_argv(
                binary@,
                runtime_config@,
                profile@,
                workshop@,
            ) + texts(words@),
            Err(m) => res matches Err(Error::Config(t)) && t@ == "failed to parse arma.params: "@
                + m@,
        },
{
    let mut words = match split {
        Ok(words) => words,
        Err(m) => {
            let mut msg = "failed to parse arma.params: ".to_owned();
            msg.append(m.as_str());
            return Err(Error::Config(msg));
        },
    };
    let mut out: Vec<String> = Vec::new();
    out.push(binary.to_owned());
    out.push("-config".to_owned());
    out.push(runtime_config.to_owned());
    out.push("-profile".to_owned());
    out.push(profile.to_owned());
    out.push("-addonDownloadDir".to_owned());
    out.push(workshop.to_owned());
    out.push("-addonsDir".to_owned());
    out.push(workshop.to_owned());
    let ghost base = out@;
    let ghost added = words@;
    assert(texts(base) =~= base_argv(binary@, runtime_config@, profile@, workshop@));
    out.append(&mut words);
    assert(texts(out@) =~= texts(base) + texts(added));
    Ok(out)
}

/// Build the argv passed to `ArmaReforgerServer.exe`: the binary, the config,
/// profile and addon directories, then the user's `arma.params` split the way
/// a shell would, so that quoted flags survive intact.
pub fn build_server_argv(
    binary: &str,
    runtime_config: &str,
    profile: &str,
    workshop: &str,
    arma_params: &str,
) -> (res: Result<Vec<String>, Error>)
    ensures
        ({
            let base = base_argv(binary@, runtime_config@, profile@, workshop@);
            let t = trimmed(arma_params@);
            if t.len() == 0 {
                res matches Ok(v) && texts(v@) == base
            } else {
                match shell_split(t) {
                    Some(words) => res matches Ok(v) && texts(v@) == base + words,
                    None => res matches Err(Error::Config(m)) && m@
                        == "failed to parse arma.params: "@ + "missing closing quote"@,
                }
            }
        }),
        is_plain(trimmed(arma_params@)) ==> (res matches Ok(v) && texts(v@) == base_argv(
            binary@,
            runtime_config@,
            profile@,
            workshop@,
        ) + plain_words(trimmed(arma_params@))),
{
    let params = trim(arma_params);
    let split = if params.unicode_len() > 0 {
        split_words(params)
    } else {
        let none: Vec<String> = Vec::new();
        assert(texts(none@) =~= Seq::<Seq<char>>::empty());
        Ok(none)
    };
    argv_from_split(binary, runtime_config, profile, workshop, split)
}

/// A text that ends in a character other than a word break has a word.
proof fn lemma_plain_words_nonempty(s: Seq<char>)
    requires
        s.len() > 0,
        !is_word_break(s.last()),
    ensures
        plain_words(s).len() > 0,
    decreases s.len(),
{
    if s.len() >= 2 && !is_word_break(s[s.len() - 2]) {
        lemma_plain_words_nonempty(s.drop_last());
    }
}

/// A single token without word breaks is one word, itself.
pub proof fn lemma_plain_words_single(tok: Seq<char>)
    requires
        tok.len() > 0,
        forall|i: int| 0 <= i < tok.len() ==> !is_word_break(#[trigger] tok[i]),
    ensures
        plain_words(tok) == seq![tok],
    decreases tok.len(),
{
    let n = tok.len() as int;
    assert(!is_word_break(tok[n - 1]));
    if n > 1 {
        let t = tok.drop_last();
        assert forall|i: int| 0 <= i < t.len() implies !is_word_break(#[trigger] t[i]) by {
            assert(t[i] == tok[i]);
        }
        lemma_plain_words_single(t);
        assert(!is_word_break(tok[n - 2]));
        assert(t.push(tok.last()) =~= tok);
        assert(seq![t].drop_last().push(seq![t].last().push(tok.last())) =~= seq![tok]);
        assert(plain_words(tok) == seq![t].drop_last().push(seq![t].last().push(tok.last())));
    } else {
        assert(tok.drop_last() =~= Seq::<char>::empty());
        assert(plain_words(tok.drop_last()) =~= Seq::<Seq<char>>::empty());
        assert(seq![tok.last()] =~= tok);
        assert(plain_words(tok) =~= Seq::<Seq<char>>::empty().push(seq![tok.last()]));
    }
}

/// Words keep their order: the words of two texts joined by a space are the
/// words of the first followed by the words of the second.
pub proof fn lemma_plain_words_concat(a: Seq<char>, b: Seq<char>)
    ensures
        plain_words(a + seq![' '] + b) == plain_words(a) + plain_words(b),
    decreases b.len(),
{
    let s = a + seq![' '] + b;
    if b.len() == 0 {
        assert(s.drop_last() =~= a);
        assert(plain_words(a) + plain_words(b) =~= plain_words(a));
    } else {
        let b1 = b.drop_last();
        let c = b.last();
        assert(s.drop_last() =~= a + seq![' '] + b1);
        lemma_plain_words_concat(a, b1);
        let x = plain_words(a);
        let y = plain_words(b1);
        assert(s.last() == c);
        assert(s[s.len() - 2] == if b1.len() == 0 { ' ' } else { b1.last() });
        if is_word_break(c) {
        } else if b1.len() > 0 && !is_word_break(b1.last()) {
            lemma_plain_words_nonempty(b1);
            assert(b[b.len() - 2] == b1.last());
            assert((x + y).drop_last().push((x + y).last().push(c)) =~= x + y.drop_last().push(
                y.last().push(c),
            ));
        } else {
            if b1.len() > 0 {
                assert(b[b.len() - 2] == b1.last());
            } else {
                assert(y =~= Seq::<Seq<char>>::empty());
            }
            assert((x + y).push(seq![c]) =~= x + y.push(seq![c]));
        }
    }
}

} // verus!
