//! The roster file of the simulator: one player per line, and the merge of
//! the players read with the players registered.

use vstd::prelude::*;
use vstd::string::{StrSliceExecFns, StringExecFns};
use vstd::multiset::Multiset;

use crate::config::{line_accepted, line_error, spec_line, spec_reads, PlayerConfig};
use crate::text::{is_word, spec_is_whitespace, words};

verus! {

/// The length of the text before its first newline.
pub open spec fn line_len(s: Seq<char>) -> nat
    decreases s.len(),
{
    if s.len() == 0 || s[0] == '\n' {
        0
    } else {
        1 + line_len(s.drop_first())
    }
}

pub proof fn lemma_line_len(s: Seq<char>)
    ensures
        line_len(s) <= s.len(),
        forall|i: int| 0 <= i < line_len(s) ==> #[trigger] s[i] != '\n',
        line_len(s) < s.len() ==> s[line_len(s) as int] == '\n',
    decreases s.len(),
{
    if s.len() > 0 && s[0] != '\n' {
        lemma_line_len(s.drop_first());
        assert forall|i: int| 0 <= i < line_len(s) implies #[trigger] s[i] != '\n' by {
            if i > 0 {
                assert(s[i] == s.drop_first()[i - 1]);
            }
        }
    }
}

/// The pieces of a text between its newlines, in order.
pub open spec fn split_lines(s: Seq<char>) -> Seq<Seq<char>>
    decreases s.len(),
{
    let n = line_len(s);
    if n >= s.len() {
        seq![s]
    } else {
        proof {
            lemma_line_len(s);
        }
        seq![s.take(n as int)] + split_lines(s.skip((n + 1) as int))
    }
}

/// Number of whitespace characters that start the text.
pub open spec fn leading_ws(s: Seq<char>) -> nat
    decreases s.len(),
{
    if s.len() == 0 || !spec_is_whitespace(s[0]) {
        0
    } else {
        1 + leading_ws(s.drop_first())
    }
}

/// Number of whitespace characters that end the text.
pub open spec fn trailing_ws(s: Seq<char>) -> nat
    decreases s.len(),
{
    if s.len() == 0 || !spec_is_whitespace(s.last()) {
        0
    } else {
        1 + trailing_ws(s.drop_last())
    }
}

/// The text without its leading and trailing whitespace (what `str::trim`
/// gives).
pub open spec fn trim(s: Seq<char>) -> Seq<char> {
    let a = leading_ws(s);
    if a >= s.len() {
        Seq::empty()
    } else {
        s.subrange(a as int, s.len() - trailing_ws(s))
    }
}


pub proof fn lemma_leading_ws(s: Seq<char>)
    ensures
        leading_ws(s) <= s.len(),
        forall|i: int| 0 <= i < leading_ws(s) ==> spec_is_whitespace(#[trigger] s[i]),
        leading_ws(s) < s.len() ==> !spec_is_whitespace(s[leading_ws(s) as int]),
    decreases s.len(),
{
    if s.len() > 0 && spec_is_whitespace(s[0]) {
        lemma_leading_ws(s.drop_first());
        assert forall|i: int| 0 <= i < leading_ws(s) implies spec_is_whitespace(#[trigger] s[i]) by {
            if i > 0 {
                assert(s[i] == s.drop_first()[i - 1]);
            }
        }
    }
}

pub proof fn lemma_trailing_ws(s: Seq<char>)
    ensures
        trailing_ws(s) <= s.len(),
        forall|i: int| s.len() - trailing_ws(s) <= i < s.len() ==> spec_is_whitespace(#[trigger] s[i]),
        trailing_ws(s) < s.len() ==> !spec_is_whitespace(s[s.len() - 1 - trailing_ws(s)]),
    decreases s.len(),
{
    if s.len() > 0 && spec_is_whitespace(s.last()) {
        lemma_trailing_ws(s.drop_last());
        assert forall|i: int| s.len() - trailing_ws(s) <= i < s.len() implies spec_is_whitespace(
            #[trigger] s[i],
        ) by {
            if i < s.len() - 1 {
                assert(s[i] == s.drop_last()[i]);
            }
        }
        if trailing_ws(s) < s.len() {
            assert(s[s.len() - 1 - trailing_ws(s)] == s.drop_last()[s.drop_last().len() - 1
                - trailing_ws(s.drop_last())]);
        }
    }
}

/// The text without its leading and trailing whitespace.
pub fn trim_text(s: &str) -> (r: &str)
    ensures
        r@ == trim(s@),
{
    let n = s.unicode_len();
    proof {
        lemma_leading_ws(s@);
        lemma_trailing_ws(s@);
    }
    let mut a: usize = 0;
    while a < n && crate::text::is_whitespace(s.get_char(a))
        invariant
            n == s@.len(),
            a <= leading_ws(s@),
            leading_ws(s@) <= s@.len(),
            forall|i: int| 0 <= i < leading_ws(s@) ==> spec_is_whitespace(#[trigger] s@[i]),
            leading_ws(s@) < s@.len() ==> !spec_is_whitespace(s@[leading_ws(s@) as int]),
        decreases n - a,
    {
        a += 1;
    }
    if a >= n {
        return s.substring_char(n, n);
    }
    assert(a == leading_ws(s@));
    let mut b: usize = n;
    while b > a && crate::text::is_whitespace(s.get_char(b - 1))
        invariant
            n == s@.len(),
            a < b <= n || b == a,
            a == leading_ws(s@),
            a < n,
            n - b <= trailing_ws(s@),
            trailing_ws(s@) <= s@.len(),
            forall|i: int| s@.len() - trailing_ws(s@) <= i < s@.len() ==> spec_is_whitespace(
                #[trigger] s@[i],
            ),
            trailing_ws(s@) < s@.len() ==> !spec_is_whitespace(s@[s@.len() - 1 - trailing_ws(s@)]),
            !spec_is_whitespace(s@[a as int]),
        decreases b,
    {
        b -= 1;
    }
    assert(n - b == trailing_ws(s@)) by {
        if b > a {
            assert(!spec_is_whitespace(s@[b - 1]));
        } else {
            assert(!spec_is_whitespace(s@[a as int]));
        }
    }
    s.substring_char(a, b)
}

/// The pieces of a text between its newlines.
pub fn lines_of(text: &str) -> (r: Vec<&str>)
    ensures
        r@.len() == split_lines(text@).len(),
        forall|i: int| 0 <= i < r@.len() ==> (#[trigger] r@[i])@ == split_lines(text@)[i],
{
    let n = text.unicode_len();
    let ghost s = text@;
    let mut r: Vec<&str> = Vec::new();
    let ghost done: Seq<Seq<char>> = Seq::empty();
    let mut i: usize = 0;
    proof {
        assert(s.skip(0) =~= s);
        assert(done + split_lines(s) =~= split_lines(s));
    }
    loop
        invariant
            n == s.len(),
            s == text@,
            i <= n,
            r@.len() == done.len(),
            forall|t: int| 0 <= t < r@.len() ==> (#[trigger] r@[t])@ == done[t],
            done + split_lines(s.skip(i as int)) == split_lines(s),
        decreases n - i,
    {
        let ghost rest = s.skip(i as int);
        proof {
            lemma_line_len(rest);
        }
        let mut j: usize = i;
        while j < n && text.get_char(j) != '\n'
            invariant
                n == s.len(),
                s == text@,
                i <= j <= n,
                rest == s.skip(i as int),
                j - i <= line_len(rest),
                line_len(rest) <= rest.len(),
                forall|t: int| 0 <= t < line_len(rest) ==> #[trigger] rest[t] != '\n',
                line_len(rest) < rest.len() ==> rest[line_len(rest) as int] == '\n',
            decreases n - j,
        {
            j += 1;
        }
        assert(j - i == line_len(rest)) by {
            if j < n {
                assert(rest[j - i] == s[j as int]);
            }
        }
        let piece = text.substring_char(i, j);
        proof {
            assert(piece@ =~= rest.take(line_len(rest) as int));
        }
        r.push(piece);
        if j >= n {
            proof {
                assert(rest.take(line_len(rest) as int) =~= rest);
                done = done.push(piece@);
                assert(done =~= split_lines(s));
            }
            return r;
        }
        proof {
            assert(rest.skip((line_len(rest) + 1) as int) =~= s.skip(j + 1));
            assert(split_lines(rest) == seq![rest.take(line_len(rest) as int)] + split_lines(
                rest.skip((line_len(rest) + 1) as int),
            ));
            done = done.push(piece@);
            assert(done + split_lines(s.skip(j + 1)) =~= (done.drop_last() + seq![piece@])
                + split_lines(s.skip(j + 1)));
        }
        i = j + 1;
    }
}


/// The lines of a roster text that hold a player: the trimmed lines that
/// are not empty and that the line reader accepts, in order.
pub open spec fn accepted_lines(lines: Seq<Seq<char>>) -> Seq<Seq<char>>
    decreases lines.len(),
{
    if lines.len() == 0 {
        Seq::empty()
    } else {
        let prev = accepted_lines(lines.drop_last());
        let t = trim(lines.last());
        if t.len() > 0 && line_accepted(t) {
            prev.push(t)
        } else {
            prev
        }
    }
}

/// The numbers (counted from 1) of the lines of a roster text that are not
/// empty once trimmed and that the line reader refuses, in order.
pub open spec fn rejected_lines(lines: Seq<Seq<char>>) -> Seq<int>
    decreases lines.len(),
{
    if lines.len() == 0 {
        Seq::empty()
    } else {
        let prev = rejected_lines(lines.drop_last());
        let t = trim(lines.last());
        if t.len() > 0 && !line_accepted(t) {
            prev.push(lines.len() as int)
        } else {
            prev
        }
    }
}

/// The refused lines of a roster text, trimmed, in order.
pub open spec fn rejected_texts(lines: Seq<Seq<char>>) -> Seq<Seq<char>>
    decreases lines.len(),
{
    if lines.len() == 0 {
        Seq::empty()
    } else {
        let prev = rejected_texts(lines.drop_last());
        let t = trim(lines.last());
        if t.len() > 0 && !line_accepted(t) {
            prev.push(t)
        } else {
            prev
        }
    }
}

/// A roster line the reader refused: its number (counted from 1) and the
/// reader's error.
#[derive(Debug, Clone)]
pub struct RosterLineError {
    pub line_number: usize,
    pub message: String,
}

/// Reads the players of a roster text: each line, trimmed, that is not empty
/// holds a player, or is reported with its number and the line reader's
/// error.
pub fn read_roster(content: &str) -> (r: (Vec<PlayerConfig>, Vec<RosterLineError>))
    ensures
        r.0@.len() == accepted_lines(split_lines(content@)).len(),
        forall|k: int|
            0 <= k < r.0@.len() ==> spec_reads(
                accepted_lines(split_lines(content@))[k],
                #[trigger] r.0@[k],
            ),
        r.1@.len() == rejected_lines(split_lines(content@)).len(),
        forall|k: int|
            0 <= k < r.1@.len() ==> (#[trigger] r.1@[k]).line_number == rejected_lines(
                split_lines(content@),
            )[k],
        forall|k: int|
            0 <= k < r.1@.len() ==> line_error(
                rejected_texts(split_lines(content@))[k],
                (#[trigger] r.1@[k]).message@,
            ),
{
    let lines = lines_of(content);
    let ghost all = split_lines(content@);
    let mut players: Vec<PlayerConfig> = Vec::new();
    let mut errors: Vec<RosterLineError> = Vec::new();
    let mut i: usize = 0;
    proof {
        assert(all.take(0) =~= Seq::<Seq<char>>::empty());
    }
    while i < lines.len()
        invariant
            lines@.len() == all.len(),
            forall|t: int| 0 <= t < lines@.len() ==> (#[trigger] lines@[t])@ == all[t],
            i <= lines@.len(),
            players@.len() == accepted_lines(all.take(i as int)).len(),
            forall|k: int|
                0 <= k < players@.len() ==> spec_reads(
                    accepted_lines(all.take(i as int))[k],
                    #[trigger] players@[k],
                ),
            errors@.len() == rejected_lines(all.take(i as int)).len(),
            forall|k: int|
                0 <= k < errors@.len() ==> (#[trigger] errors@[k]).line_number == rejected_lines(
                    all.take(i as int),
                )[k],
            errors@.len() == rejected_texts(all.take(i as int)).len(),
            forall|k: int|
                0 <= k < errors@.len() ==> line_error(
                    rejected_texts(all.take(i as int))[k],
                    (#[trigger] errors@[k]).message@,
                ),
        decreases lines@.len() - i,
    {
        let line = trim_text(lines[i]);
        proof {
            assert(all.take(i + 1).drop_last() =~= all.take(i as int));
            assert(all.take(i + 1).last() == all[i as int]);
        }
        if line.unicode_len() > 0 {
            match PlayerConfig::from_line(line) {
                Ok(player) => {
                    players.push(player);
                },
                Err(message) => {
                    errors.push(RosterLineError { line_number: i + 1, message });
                },
            }
        }
        i += 1;
    }
    proof {
        assert(all.take(lines@.len() as int) =~= all);
    }
    (players, errors)
}


/// The lines of the players, each followed by a newline.
pub open spec fn lines_text(ps: Seq<PlayerConfig>) -> Seq<char>
    decreases ps.len(),
{
    if ps.len() == 0 {
        Seq::empty()
    } else {
        spec_line(ps[0]) + seq!['\n'] + lines_text(ps.drop_first())
    }
}

/// The roster text of the players: their lines joined by newlines, and a
/// final newline.
pub open spec fn roster_text(ps: Seq<PlayerConfig>) -> Seq<char> {
    if ps.len() == 0 {
        seq!['\n']
    } else {
        lines_text(ps)
    }
}

/// A player that a roster line keeps: its name and secret are words.
pub open spec fn storable(p: PlayerConfig) -> bool {
    is_word(p.name@) && is_word(p.secret@)
}

proof fn lemma_lines_text_push(ps: Seq<PlayerConfig>, p: PlayerConfig)
    ensures
        lines_text(ps.push(p)) == lines_text(ps) + spec_line(p) + seq!['\n'],
    decreases ps.len(),
{
    if ps.len() == 0 {
        assert(ps.push(p).drop_first() =~= Seq::<PlayerConfig>::empty());
        assert(ps.push(p)[0] == p);
        assert(lines_text(Seq::<PlayerConfig>::empty()) == Seq::<char>::empty());
        assert(lines_text(ps) == Seq::<char>::empty());
        assert(lines_text(ps.push(p)) =~= spec_line(p) + seq!['\n'] + Seq::<char>::empty());
    } else {
        assert(ps.push(p).drop_first() =~= ps.drop_first().push(p));
        lemma_lines_text_push(ps.drop_first(), p);
        assert(ps.push(p)[0] == ps[0]);
    }
}

proof fn lemma_split_cons(a: Seq<char>, rest: Seq<char>)
    requires
        forall|i: int| 0 <= i < a.len() ==> #[trigger] a[i] != '\n',
    ensures
        split_lines(a + seq!['\n'] + rest) == seq![a] + split_lines(rest),
    decreases a.len(),
{
    let s = a + seq!['\n'] + rest;
    lemma_line_len_prefix(a, seq!['\n'] + rest);
    assert(s =~= a + (seq!['\n'] + rest));
    assert(s.take(a.len() as int) =~= a);
    assert(s.skip((a.len() + 1) as int) =~= rest);
}

proof fn lemma_line_len_prefix(a: Seq<char>, rest: Seq<char>)
    requires
        forall|i: int| 0 <= i < a.len() ==> #[trigger] a[i] != '\n',
        rest.len() > 0 && rest[0] == '\n',
    ensures
        line_len(a + rest) == a.len(),
    decreases a.len(),
{
    if a.len() == 0 {
        assert(a + rest =~= rest);
    } else {
        assert((a + rest).drop_first() =~= a.drop_first() + rest);
        assert forall|i: int| 0 <= i < a.drop_first().len() implies #[trigger] a.drop_first()[i]
            != '\n' by {
            assert(a.drop_first()[i] == a[i + 1]);
        }
        lemma_line_len_prefix(a.drop_first(), rest);
    }
}

/// The lines of the players, each of them a single line.
pub open spec fn player_lines(ps: Seq<PlayerConfig>) -> Seq<Seq<char>> {
    ps.map_values(|p: PlayerConfig| spec_line(p))
}

/// A line that is kept as it is by the reader: not empty, no newline, no
/// whitespace at either end, and accepted.
pub open spec fn clean_line(l: Seq<char>) -> bool {
    &&& l.len() > 0
    &&& !spec_is_whitespace(l[0])
    &&& !spec_is_whitespace(l.last())
    &&& forall|i: int| 0 <= i < l.len() ==> #[trigger] l[i] != '\n'
    &&& line_accepted(l)
}

proof fn lemma_split_lines_text(ps: Seq<PlayerConfig>)
    requires
        forall|k: int| 0 <= k < ps.len() ==> clean_line(#[trigger] spec_line(ps[k])),
    ensures
        split_lines(lines_text(ps)) == player_lines(ps).push(Seq::empty()),
    decreases ps.len(),
{
    if ps.len() == 0 {
        assert(split_lines(Seq::<char>::empty()) == seq![Seq::<char>::empty()]);
        assert(player_lines(ps).push(Seq::empty()) =~= seq![Seq::<char>::empty()]);
    } else {
        assert forall|k: int| 0 <= k < ps.drop_first().len() implies clean_line(
            #[trigger] spec_line(ps.drop_first()[k]),
        ) by {
            assert(ps.drop_first()[k] == ps[k + 1]);
        }
        lemma_split_lines_text(ps.drop_first());
        assert(clean_line(spec_line(ps[0])));
        lemma_split_cons(spec_line(ps[0]), lines_text(ps.drop_first()));
        assert(player_lines(ps).push(Seq::empty()) =~= seq![spec_line(ps[0])] + player_lines(
            ps.drop_first(),
        ).push(Seq::empty()));
    }
}

proof fn lemma_trim_clean(l: Seq<char>)
    requires
        l.len() > 0,
        !spec_is_whitespace(l[0]),
        !spec_is_whitespace(l.last()),
    ensures
        trim(l) == l,
{
    assert(l.subrange(0, l.len() as int) =~= l);
}

proof fn lemma_accepted_clean(ls: Seq<Seq<char>>)
    requires
        forall|k: int| 0 <= k < ls.len() ==> clean_line(#[trigger] ls[k]),
    ensures
        accepted_lines(ls) == ls,
        rejected_lines(ls).len() == 0,
    decreases ls.len(),
{
    if ls.len() > 0 {
        lemma_accepted_clean(ls.drop_last());
        assert(clean_line(ls[ls.len() - 1]));
        lemma_trim_clean(ls.last());
        assert(ls.drop_last().push(ls.last()) =~= ls);
    }
}

proof fn lemma_accepted_empty_last(ls: Seq<Seq<char>>)
    ensures
        accepted_lines(ls.push(Seq::empty())) == accepted_lines(ls),
        rejected_lines(ls.push(Seq::empty())) == rejected_lines(ls),
{
    assert(ls.push(Seq::empty()).drop_last() =~= ls);
    assert(trim(Seq::<char>::empty()) =~= Seq::<char>::empty());
}

/// The roster text of the players: one line per player, joined by newlines,
/// with a final newline. Players whose names and secrets are words are read
/// back from it, in order, and no line of it is refused.
pub fn write_roster(players: &Vec<PlayerConfig>) -> (r: String)
    ensures
        r@ == roster_text(players@),
        (forall|k: int| 0 <= k < players@.len() ==> storable(#[trigger] players@[k])) ==> {
            &&& accepted_lines(split_lines(r@)) == player_lines(players@)
            &&& rejected_lines(split_lines(r@)).len() == 0
            &&& forall|k: int|
                0 <= k < players@.len() ==> spec_reads(
                    spec_line(#[trigger] players@[k]),
                    players@[k],
                )
        },
{
    let mut text = String::new();
    let mut i: usize = 0;
    let ghost all_storable = forall|k: int| 0 <= k < players@.len() ==> storable(#[trigger] players@[k]);
    while i < players.len()
        invariant
            i <= players@.len(),
            text@ == lines_text(players@.take(i as int)),
            all_storable == forall|k: int| 0 <= k < players@.len() ==> storable(#[trigger] players@[k]),
            all_storable ==> forall|k: int|
                0 <= k < i ==> clean_line(#[trigger] spec_line(players@[k])) && spec_reads(
                    spec_line(players@[k]),
                    players@[k],
                ),
        decreases players@.len() - i,
    {
        let line = players[i].to_line();
        text.append(line.as_str());
        text.append("\n");
        proof {
            reveal_strlit("\n");
            assert(players@.take(i + 1) =~= players@.take(i as int).push(players@[i as int]));
            lemma_lines_text_push(players@.take(i as int), players@[i as int]);
            if all_storable {
                assert(storable(players@[i as int]));
            }
        }
        i += 1;
    }
    if players.len() == 0 {
        text.append("\n");
        proof {
            reveal_strlit("\n");
        }
    }
    proof {
        assert(players@.take(players@.len() as int) =~= players@);
        assert(text@ =~= roster_text(players@));
        if all_storable && players@.len() > 0 {
            lemma_split_lines_text(players@);
            assert forall|k: int| 0 <= k < player_lines(players@).len() implies clean_line(
                #[trigger] player_lines(players@)[k],
            ) by {
                assert(player_lines(players@)[k] == spec_line(players@[k]));
            }
            lemma_accepted_clean(player_lines(players@));
            lemma_accepted_empty_last(player_lines(players@));
        }
        if players@.len() == 0 {
            assert(split_lines(seq!['\n']) == seq![Seq::<char>::empty()] + split_lines(
                Seq::<char>::empty(),
            )) by {
                lemma_split_cons(Seq::empty(), Seq::empty());
                assert(Seq::<char>::empty() + seq!['\n'] + Seq::<char>::empty() =~= seq!['\n']);
            }
            lemma_accepted_empty_last(Seq::empty());
            lemma_accepted_empty_last(seq![Seq::<char>::empty()]);
            assert(seq![Seq::<char>::empty()] + split_lines(Seq::<char>::empty()) =~= Seq::<
                Seq<char>,
            >::empty().push(Seq::empty()).push(Seq::empty()));
            assert(player_lines(players@) =~= Seq::<Seq<char>>::empty());
        }
    }
    text
}

/// Two players read from the same line agree on every field.
pub proof fn law_reads_agree(line: Seq<char>, a: PlayerConfig, b: PlayerConfig)
    requires
        spec_reads(line, a),
        spec_reads(line, b),
    ensures
        a.idx == b.idx,
        a.name@ == b.name@,
        a.id == b.id,
        a.secret@ == b.secret@,
        a.preferred_job == b.preferred_job,
{
    crate::enums::lemma_job_names_distinct(a.preferred_job, b.preferred_job);
}

/// Two players agree on every field.
pub open spec fn same_player(a: PlayerConfig, b: PlayerConfig) -> bool {
    &&& a.idx == b.idx
    &&& a.name@ == b.name@
    &&& a.id == b.id
    &&& a.secret@ == b.secret@
    &&& a.preferred_job == b.preferred_job
}

/// Reading back what was written: when `text` is what `write_roster` gives
/// for `players` whose names and secrets are words, and `read` is what
/// `read_roster` gives for `text`, the players read are the players written,
/// as many and in the same order.
pub proof fn law_roster_round_trip(players: Seq<PlayerConfig>, text: Seq<char>, read: Seq<PlayerConfig>)
    requires
        forall|k: int| 0 <= k < players.len() ==> storable(#[trigger] players[k]),
        text == roster_text(players),
        accepted_lines(split_lines(text)) == player_lines(players),
        forall|k: int| 0 <= k < players.len() ==> spec_reads(spec_line(#[trigger] players[k]), players[k]),
        read.len() == accepted_lines(split_lines(text)).len(),
        forall|k: int| 0 <= k < read.len() ==> spec_reads(accepted_lines(split_lines(text))[k], #[trigger] read[k]),
    ensures
        read.len() == players.len(),
        forall|k: int| 0 <= k < read.len() ==> same_player(#[trigger] read[k], players[k]),
{
    assert forall|k: int| 0 <= k < read.len() implies same_player(#[trigger] read[k], players[k]) by {
        assert(player_lines(players)[k] == spec_line(players[k]));
        law_reads_agree(spec_line(players[k]), read[k], players[k]);
    }
}


/// The players are in order of their indices.
pub open spec fn sorted_by_idx(ps: Seq<PlayerConfig>) -> bool {
    forall|i: int, j: int| 0 <= i < j < ps.len() ==> ps[i].idx <= ps[j].idx
}

/// The indices of the players to register so that the roster has
/// `requested_count` players when it has `existing_count`: those after the
/// existing ones, up to `requested_count`.
pub fn indices_to_register(existing_count: usize, requested_count: usize) -> (r: Vec<usize>)
    ensures
        r@.len() == (if existing_count < requested_count {
            requested_count - existing_count
        } else {
            0
        }),
        forall|k: int| 0 <= k < r@.len() ==> #[trigger] r@[k] == existing_count + 1 + k,
{
    let mut r: Vec<usize> = Vec::new();
    if existing_count < requested_count {
        let mut i = existing_count;
        while i < requested_count
            invariant
                existing_count < requested_count,
                existing_count <= i <= requested_count,
                r@.len() == i - existing_count,
                forall|k: int| 0 <= k < r@.len() ==> #[trigger] r@[k] == existing_count + 1 + k,
            decreases requested_count - i,
        {
            i += 1;
            r.push(i);
        }
    }
    r
}

/// Where a player with index `idx` goes in `s`: before the first player with
/// a greater index, after all the others before it.
pub open spec fn insert_pos(s: Seq<PlayerConfig>, idx: usize) -> nat
    decreases s.len(),
{
    if s.len() == 0 || s[0].idx > idx {
        0
    } else {
        1 + insert_pos(s.drop_first(), idx)
    }
}

/// The players sorted by index, each one placed after the players before it
/// with an equal or smaller index: players with equal indices keep their
/// order.
pub open spec fn stable_sort_by_idx(ps: Seq<PlayerConfig>) -> Seq<PlayerConfig>
    decreases ps.len(),
{
    if ps.len() == 0 {
        Seq::empty()
    } else {
        let sorted = stable_sort_by_idx(ps.drop_last());
        sorted.insert(insert_pos(sorted, ps.last().idx) as int, ps.last())
    }
}

proof fn lemma_insert_pos(s: Seq<PlayerConfig>, idx: usize)
    ensures
        insert_pos(s, idx) <= s.len(),
        forall|i: int| 0 <= i < insert_pos(s, idx) ==> #[trigger] s[i].idx <= idx,
        insert_pos(s, idx) < s.len() ==> s[insert_pos(s, idx) as int].idx > idx,
    decreases s.len(),
{
    if s.len() > 0 && s[0].idx <= idx {
        lemma_insert_pos(s.drop_first(), idx);
        assert forall|i: int| 0 <= i < insert_pos(s, idx) implies #[trigger] s[i].idx <= idx by {
            if i > 0 {
                assert(s[i] == s.drop_first()[i - 1]);
            }
        }
    }
}

/// The players in order of their indices (players with equal indices keep
/// their order).
pub fn sort_by_idx(players: Vec<PlayerConfig>) -> (r: Vec<PlayerConfig>)
    ensures
        r@ == stable_sort_by_idx(players@),
        sorted_by_idx(r@),
        r@.to_multiset() == players@.to_multiset(),
{
    broadcast use vstd::seq_lib::group_to_multiset_ensures, vstd::multiset::group_multiset_properties;

    let mut rest = players;
    let mut sorted: Vec<PlayerConfig> = Vec::new();
    let ghost original = players@;
    proof {
        assert(Seq::<PlayerConfig>::empty().to_multiset() =~= Multiset::empty()) by {
            vstd::seq_lib::to_multiset_len(Seq::<PlayerConfig>::empty());
        }
        assert(sorted@ =~= Seq::<PlayerConfig>::empty());
        assert(original.take(0) =~= Seq::<PlayerConfig>::empty());
        assert(original.skip(0) =~= original);
    }
    while rest.len() > 0
        invariant
            sorted_by_idx(sorted@),
            sorted@.to_multiset().add(rest@.to_multiset()) == original.to_multiset(),
            rest@.len() <= original.len(),
            rest@ == original.skip(original.len() - rest@.len()),
            sorted@ == stable_sort_by_idx(original.take(original.len() - rest@.len())),
        decreases rest@.len(),
    {
        let ghost before_rest = rest@;
        let ghost before_sorted = sorted@;
        let p = rest.remove(0);
        let mut pos: usize = 0;
        while pos < sorted.len() && sorted[pos].idx <= p.idx
            invariant
                sorted@ == before_sorted,
                pos <= sorted@.len(),
                forall|i: int| 0 <= i < pos ==> sorted@[i].idx <= p.idx,
            decreases sorted@.len() - pos,
        {
            pos += 1;
        }
        proof {
            assert(pos < sorted@.len() ==> sorted@[pos as int].idx > p.idx);
            lemma_insert_pos(before_sorted, p.idx);
            assert(pos == insert_pos(before_sorted, p.idx)) by {
                if pos < insert_pos(before_sorted, p.idx) {
                    assert(before_sorted[pos as int].idx <= p.idx);
                } else if pos > insert_pos(before_sorted, p.idx) {
                    let q = insert_pos(before_sorted, p.idx) as int;
                    assert(before_sorted[q].idx > p.idx);
                }
            }
            let k = original.len() - before_rest.len();
            assert(p == original[k]);
            assert(original.take(k + 1).drop_last() =~= original.take(k));
            assert(original.take(k + 1).last() == original[k]);
        }
        sorted.insert(pos, p);
        proof {
            assert(sorted_by_idx(sorted@)) by {
                assert forall|i: int, j: int| 0 <= i < j < sorted@.len() implies sorted@[i].idx
                    <= sorted@[j].idx by {
                    let b = before_sorted;
                    if j < pos {
                        assert(sorted@[i] == b[i] && sorted@[j] == b[j]);
                    } else if j == pos {
                        assert(sorted@[i] == b[i]);
                    } else if i < pos {
                        assert(sorted@[i] == b[i] && sorted@[j] == b[j - 1]);
                    } else if i == pos {
                        assert(sorted@[j] == b[j - 1]);
                        assert(b[pos as int].idx > p.idx);
                        assert(b[pos as int].idx <= b[j - 1].idx || j - 1 == pos);
                    } else {
                        assert(sorted@[i] == b[i - 1] && sorted@[j] == b[j - 1]);
                    }
                }
            }
            assert(rest@ == before_rest.remove(0));
            vstd::seq_lib::to_multiset_remove(before_rest, 0);
            assert(sorted@ == before_sorted.insert(pos as int, p));
            vstd::seq_lib::to_multiset_insert(before_sorted, pos as int, p);
            assert(before_rest.to_multiset().contains(p)) by {
                vstd::seq_lib::to_multiset_contains(before_rest, p);
            }
            assert(sorted@.to_multiset().add(rest@.to_multiset()) =~= original.to_multiset());
            assert(rest@ =~= original.skip(original.len() - rest@.len()));
        }
    }
    proof {
        assert(rest@.to_multiset() =~= Multiset::empty()) by {
            vstd::seq_lib::to_multiset_len(rest@);
        }
        assert(sorted@.to_multiset().add(Multiset::empty()) =~= sorted@.to_multiset());
        assert(original.take(original.len() as int) =~= original);
    }
    sorted
}

/// The roster after registration: the first `requested_count` players read,
/// then the players registered, sorted by index (players with equal indices
/// keep that order).
pub fn merge_roster(loaded: Vec<PlayerConfig>, requested_count: usize, registered: Vec<PlayerConfig>) -> (r: Vec<PlayerConfig>)
    ensures
        r@ == stable_sort_by_idx(
            loaded@.take(
                if requested_count < loaded@.len() {
                    requested_count as int
                } else {
                    loaded@.len() as int
                },
            ) + registered@,
        ),
        sorted_by_idx(r@),
        r@.to_multiset() == (loaded@.take(
            if requested_count < loaded@.len() {
                requested_count as int
            } else {
                loaded@.len() as int
            },
        ) + registered@).to_multiset(),
{
    let mut players = loaded;
    players.truncate(requested_count);
    let mut registered = registered;
    let ghost kept = players@;
    let ghost added = registered@;
    players.append(&mut registered);
    proof {
        assert(kept =~= loaded@.take(
            if requested_count < loaded@.len() {
                requested_count as int
            } else {
                loaded@.len() as int
            },
        ));
        assert(players@ =~= kept + added);
    }
    sort_by_idx(players)
}

} // verus!




