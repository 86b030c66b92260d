//! Prepared SQL statements: a sequence of fixed fragments and placeholders,
//! rendered to text with numbered placeholder markers.

use vstd::prelude::*;
use vstd::string::StringExecFns;
use crate::strutil::{dec_rep, u64_to_string};

verus! {

/// One part of a prepared statement.
#[derive(Debug, Clone, PartialEq)]
pub enum StatementPart {
    /// A fixed SQL fragment.
    Fixed(String),
    /// A placeholder for a bound parameter.
    Placeholder,
}

/// A statement assembled from parts; placeholders are numbered from one
/// when the statement is rendered.
#[derive(Debug, Clone, PartialEq)]
pub struct PreparedStatement {
    pub parts: Vec<StatementPart>,
}

/// The text a part renders to: fixed fragments render to themselves, the
/// `idx`-th placeholder renders to the marker prefix followed by `idx`.
pub open spec fn render_part(p: StatementPart, prefix: Seq<char>, idx: nat) -> Seq<char> {
    match p {
        StatementPart::Fixed(s) => s@,
        StatementPart::Placeholder => prefix + dec_rep(idx),
    }
}

/// The placeholder number after rendering `p` with number `idx`: rendering a
/// placeholder advances it, saturating at the largest representable number.
pub open spec fn next_idx(p: StatementPart, idx: nat) -> nat {
    if p is Placeholder && idx < u64::MAX {
        (idx + 1) as nat
    } else {
        idx
    }
}

/// The text a part sequence renders to, parts separated by single spaces,
/// placeholders numbered from `idx`.
pub open spec fn statement_text(parts: Seq<StatementPart>, prefix: Seq<char>, idx: nat) -> Seq<
    char,
>
    decreases parts.len(),
{
    if parts.len() == 0 {
        Seq::empty()
    } else {
        let head = render_part(parts[0], prefix, idx);
        if parts.len() == 1 {
            head
        } else {
            head + seq![' '] + statement_text(parts.drop_first(), prefix, next_idx(parts[0], idx))
        }
    }
}

impl PreparedStatement {
    /// A statement made of the given parts.
    pub fn new(parts: Vec<StatementPart>) -> (r: PreparedStatement)
        ensures
            r.parts@ == parts@,
    {
        PreparedStatement { parts }
    }

    /// Appends all parts of `other`.
    pub fn concat(&mut self, other: PreparedStatement)
        ensures
            final(self).parts@ == old(self).parts@ + other.parts@,
    {
        let mut other_parts = other.parts;
        let n = other_parts.len();
        let ghost other_view = other_parts@;
        let mut i: usize = 0;
        proof {
            assert(other_view.take(0) =~= Seq::empty());
            assert(self.parts@ =~= old(self).parts@ + other_view.take(0));
            assert(other_view.skip(0) =~= other_view);
        }
        while i < n
            invariant
                n == other_view.len(),
                i <= n,
                other_parts@ == other_view.skip(i as int),
                self.parts@ == old(self).parts@ + other_view.take(i as int),
            decreases n - i,
        {
            let part = other_parts.remove(0);
            self.parts.push(part);
            proof {
                assert(other_parts@ =~= other_view.skip(i + 1));
                assert(other_view.take(i + 1) =~= other_view.take(i as int).push(
                    other_view[i as int],
                ));
                assert(self.parts@ =~= old(self).parts@ + other_view.take(i + 1));
            }
            i += 1;
        }
        proof {
            assert(other_view.take(n as int) =~= other_view);
        }
    }

    /// Appends `on`, then all parts of `other`.
    pub fn concat_on(&mut self, other: PreparedStatement, on: StatementPart)
        ensures
            final(self).parts@ == old(self).parts@.push(on) + other.parts@,
    {
        self.append(on);
        self.concat(other);
    }

    /// Inserts a part at the front.
    pub fn prepend(&mut self, part: StatementPart)
        ensures
            final(self).parts@ == seq![part] + old(self).parts@,
    {
        self.parts.insert(0, part);
        proof {
            assert(self.parts@ =~= seq![part] + old(self).parts@);
        }
    }

    /// Appends a part at the back.
    pub fn append(&mut self, part: StatementPart)
        ensures
            final(self).parts@ == old(self).parts@.push(part),
    {
        self.parts.push(part);
    }

    /// Renders the statement: parts joined by single spaces, placeholders
    /// replaced by the marker prefix followed by their one-based number.
    pub fn to_statement(&self, placeholder_prefix: &str) -> (r: String)
        ensures
            r@ == statement_text(self.parts@, placeholder_prefix@, 1),
    {
        let r = render_from(&self.parts, 0, 1, placeholder_prefix);
        proof {
            assert(self.parts@.skip(0) =~= self.parts@);
        }
        r
    }
}

fn render_from(parts: &Vec<StatementPart>, i: usize, idx: u64, prefix: &str) -> (r: String)
    requires
        i <= parts@.len(),
    ensures
        r@ == statement_text(parts@.skip(i as int), prefix@, idx as nat),
    decreases parts@.len() - i,
{
    if i == parts.len() {
        proof {
            assert(parts@.skip(i as int) =~= Seq::empty());
        }
        String::new()
    } else {
        let head: String = match &parts[i] {
            StatementPart::Fixed(s) => s.clone(),
            StatementPart::Placeholder => prefix.to_owned().concat(u64_to_string(idx).as_str()),
        };
        let next: u64 = match &parts[i] {
            StatementPart::Placeholder => if idx < u64::MAX {
                idx + 1
            } else {
                idx
            },
            StatementPart::Fixed(_) => idx,
        };
        proof {
            assert(parts@.skip(i as int)[0] == parts@[i as int]);
            assert(parts@.skip(i as int).drop_first() =~= parts@.skip(i + 1));
        }
        if i + 1 == parts.len() {
            proof {
                assert(parts@.skip(i as int).len() == 1);
            }
            head
        } else {
            let rest = render_from(parts, i + 1, next, prefix);
            proof {
                reveal_strlit(" ");
                assert(" "@ =~= seq![' ']);
            }
            head.concat(" ").concat(rest.as_str())
        }
    }
}

} // verus!
