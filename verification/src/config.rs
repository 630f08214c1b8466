//! The simulator's roster of bot-players, kept one player per line in a text
//! file: `idx name id secret preferred_job`, separated by whitespace.

use vstd::prelude::*;
use vstd::string::StringExecFns;

use crate::enums::Job;
use crate::ids::{is_uuid_char, parsed_uuid, uuid_error_text, uuid_text, Id};
use crate::text::{
    decimal_text, is_word, lemma_decimal_is_word, lemma_decimal_text, lemma_words_cons,
    lemma_words_single, parse_usize, parsed_usize, spec_is_whitespace, split_whitespace, usize_parse_error,
    usize_text, words,
};

verus! {

/// A bot-player of the roster.
#[derive(Debug, Clone)]
pub struct PlayerConfig {
    pub idx: usize,
    pub name: String,
    pub id: Id,
    pub secret: String,
    pub preferred_job: Job,
}

/// The roster line of a player.
pub open spec fn spec_line(c: PlayerConfig) -> Seq<char> {
    decimal_text(c.idx as nat) + seq![' '] + c.name@ + seq![' '] + uuid_text(c.id.value) + seq![' ']
        + c.secret@ + seq![' '] + c.preferred_job.spec_name()
}

/// A line the roster reader accepts: five words, the first a number that
/// fits in a `usize`, the third a UUID, the fifth the name of a job.
pub open spec fn line_accepted(line: Seq<char>) -> bool {
    let w = words(line);
    &&& w.len() == 5
    &&& parsed_usize(w[0]) is Some
    &&& parsed_uuid(w[2]) is Some
    &&& exists|job: Job| job.spec_name() == w[4]
}

/// The player `c` is what the roster reader reads from `line`.
pub open spec fn spec_reads(line: Seq<char>, c: PlayerConfig) -> bool {
    let w = words(line);
    &&& w.len() == 5
    &&& parsed_usize(w[0]) == Some(c.idx as nat)
    &&& c.name@ == w[1]
    &&& parsed_uuid(w[2]) == Some(c.id.value)
    &&& c.secret@ == w[3]
    &&& c.preferred_job.spec_name() == w[4]
}

/// `e` is the error the roster reader gives for `line`: the count of words
/// when there are not five; the number parser's error when the first is not
/// a `usize` number; the UUID parser's error when the third is not a UUID;
/// otherwise the fifth is no job's name.
pub open spec fn line_error(line: Seq<char>, e: Seq<char>) -> bool {
    let w = words(line);
    if w.len() != 5 {
        e == "expected 5 fields, got "@ + decimal_text(w.len()) + ": "@ + line
    } else if parsed_usize(w[0]) is None {
        e == "invalid idx: "@ + usize_parse_error(w[0])
    } else if parsed_uuid(w[2]) is None {
        e == "invalid ID: "@ + uuid_error_text(w[2])
    } else {
        e == "invalid job: InvalidStr: `"@ + w[4] + "` is an invalid value for enum Job"@
    }
}

proof fn lemma_job_name_is_word(job: Job)
    ensures
        is_word(job.spec_name()),
{
    reveal_strlit("BREEDER");
    reveal_strlit("DRIVER");
    reveal_strlit("SHEARER");
}

impl PlayerConfig {
    /// The roster line of the player. A player whose name and secret are
    /// words is read back from it.
    pub fn to_line(&self) -> (r: String)
        ensures
            r@ == spec_line(*self),
            is_word(self.name@) && is_word(self.secret@) ==> line_accepted(r@) && spec_reads(
                r@,
                *self,
            ),
            is_word(self.name@) && is_word(self.secret@) ==> {
                &&& r@.len() > 0
                &&& !spec_is_whitespace(r@[0])
                &&& !spec_is_whitespace(r@.last())
                &&& forall|i: int| 0 <= i < r@.len() ==> #[trigger] r@[i] != '\n'
            },
    {
        let mut line = usize_text(self.idx);
        line.append(" ");
        line.append(self.name.as_str());
        line.append(" ");
        let id_text = self.id.to_text();
        line.append(id_text.as_str());
        line.append(" ");
        line.append(self.secret.as_str());
        line.append(" ");
        line.append(self.preferred_job.name());
        proof {
            reveal_strlit(" ");
            let d = decimal_text(self.idx as nat);
            let u = uuid_text(self.id.value);
            let j = self.preferred_job.spec_name();
            assert(line@ =~= d + seq![' '] + self.name@ + seq![' '] + u + seq![' '] + self.secret@
                + seq![' '] + j);
            if is_word(self.name@) && is_word(self.secret@) {
                lemma_decimal_is_word(self.idx as nat);
                lemma_decimal_text(self.idx as nat);
                lemma_job_name_is_word(self.preferred_job);
                assert(is_word(u)) by {
                    assert forall|i: int| 0 <= i < u.len() implies !spec_is_whitespace(#[trigger] u[i]) by {
                        assert(is_uuid_char(u[i]));
                    }
                }
                let s4 = j;
                let s3 = self.secret@ + seq![' '] + s4;
                let s2 = u + seq![' '] + s3;
                let s1 = self.name@ + seq![' '] + s2;
                let s0 = d + seq![' '] + s1;
                assert(line@ =~= s0);
                lemma_words_single(j);
                lemma_words_cons(self.secret@, s4);
                lemma_words_cons(u, s3);
                lemma_words_cons(self.name@, s2);
                lemma_words_cons(d, s1);
                let w = words(line@);
                assert(w =~= seq![d, self.name@, u, self.secret@, j]);
                assert(d[0] != '+');
                assert(parsed_usize(d) == Some(self.idx as nat));
                assert(spec_is_whitespace('\n'));
                assert forall|i: int| 0 <= i < line@.len() implies #[trigger] line@[i] != '\n' by {
                    let k0 = d.len() as int;
                    let k1 = k0 + 1 + self.name@.len();
                    let k2 = k1 + 1 + u.len();
                    let k3 = k2 + 1 + self.secret@.len();
                    if i < k0 {
                        assert(line@[i] == d[i]);
                    } else if i == k0 || i == k1 || i == k2 || i == k3 {
                        assert(line@[i] == ' ');
                    } else if i < k1 {
                        assert(line@[i] == self.name@[i - k0 - 1]);
                    } else if i < k2 {
                        assert(line@[i] == u[i - k1 - 1]);
                        assert(is_uuid_char(u[i - k1 - 1]));
                    } else if i < k3 {
                        assert(line@[i] == self.secret@[i - k2 - 1]);
                    } else {
                        assert(line@[i] == j[i - k3 - 1]);
                    }
                }
                assert(line@[0] == d[0]);
                assert(line@.last() == j.last());
                assert(!spec_is_whitespace(j.last()));
            }
        }
        line
    }

    /// Reads a player from a roster line. The errors: the line has not five
    /// words; the first is not a `usize` number; the third is not a UUID; the
    /// fifth is not the name of a job.
    pub fn from_line(line: &str) -> (r: Result<PlayerConfig, String>)
        ensures
            r is Ok <==> line_accepted(line@),
            r matches Ok(c) ==> spec_reads(line@, c),
            r matches Err(e) ==> line_error(line@, e@),
            words(line@).len() != 5 ==> (r matches Err(e) && e@ == "expected 5 fields, got "@
                + decimal_text(words(line@).len()) + ": "@ + line@),
            words(line@).len() == 5 && parsed_usize(words(line@)[0]) is None ==> (r matches Err(e)
                && e@ == "invalid idx: "@ + usize_parse_error(words(line@)[0])),
            words(line@).len() == 5 && parsed_usize(words(line@)[0]) is Some && parsed_uuid(
                words(line@)[2],
            ) is None ==> (r matches Err(e) && e@ == "invalid ID: "@ + uuid_error_text(
                words(line@)[2],
            )),
            words(line@).len() == 5 && parsed_usize(words(line@)[0]) is Some && parsed_uuid(
                words(line@)[2],
            ) is Some && (forall|job: Job| job.spec_name() != words(line@)[4]) ==> (r matches Err(e)
                && e@ == "invalid job: InvalidStr: `"@ + words(line@)[4]
                + "` is an invalid value for enum Job"@),
    {
        let parts = split_whitespace(line);
        let ghost w = words(line@);
        if parts.len() != 5 {
            let mut msg = String::from_str("expected 5 fields, got ");
            let count = usize_text(parts.len());
            msg.append(count.as_str());
            msg.append(": ");
            msg.append(line);
            return Err(msg);
        }
        proof {
            assert(parts@[0]@ == w[0]);
            assert(parts@[1]@ == w[1]);
            assert(parts@[2]@ == w[2]);
            assert(parts@[3]@ == w[3]);
            assert(parts@[4]@ == w[4]);
        }
        let idx = match parse_usize(parts[0]) {
            Ok(v) => v,
            Err(e) => {
                let mut msg = String::from_str("invalid idx: ");
                msg.append(e.as_str());
                return Err(msg);
            },
        };
        let name = parts[1].to_owned();
        let id = match Id::parse(parts[2]) {
            Ok(id) => id,
            Err(e) => {
                let mut msg = String::from_str("invalid ID: ");
                msg.append(e.as_str());
                return Err(msg);
            },
        };
        let secret = parts[3].to_owned();
        let preferred_job = match Job::from_name(parts[4]) {
            Some(job) => job,
            None => {
                let mut msg = String::from_str("invalid job: InvalidStr: `");
                msg.append(parts[4]);
                msg.append("` is an invalid value for enum Job");
                return Err(msg);
            },
        };
        Ok(PlayerConfig { idx, name, id, secret, preferred_job })
    }
}

} // verus!
