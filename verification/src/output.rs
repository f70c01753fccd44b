//! The result sink's content: the dated output-file name, the `email:password`
//! line for each account, and the planned append for a run. The shell only
//! opens the planned path in append mode and writes the planned content.

use crate::account::Account;
use crate::account::Date;
use crate::digits::append_decimal;
use crate::digits::append_pad2;
use crate::digits::dec_digits;
use crate::digits::lemma_dec_digits_len;
use crate::digits::lemma_pad2_len;
use crate::digits::pad2;
use crate::digits::pow10;
use chrono::Datelike;
use vstd::prelude::*;
use vstd::string::StringExecFns;

verus! {

/// The dated output-file name: `DD-MM-YYYY.txt`.
pub open spec fn file_name_spec(d: Date) -> Seq<char> {
    pad2(d.day as nat) + seq!['-'] + pad2(d.month as nat) + seq!['-'] + dec_digits(d.year as nat)
        + seq!['.', 't', 'x', 't']
}

pub fn output_file_name(d: &Date) -> (r: String)
    requires
        d.wf(),
    ensures
        r@ == file_name_spec(*d),
        r@.len() == 14,
{
    let mut s = String::new();
    append_pad2(&mut s, d.day as u64);
    s.append("-");
    append_pad2(&mut s, d.month as u64);
    s.append("-");
    append_decimal(&mut s, d.year as u64);
    s.append(".txt");
    proof {
        reveal_strlit("-");
        reveal_strlit(".txt");
        lemma_pad2_len(d.day as nat);
        lemma_pad2_len(d.month as nat);
        assert(pow10(3) == 1000 && pow10(4) == 10000) by {
            reveal_with_fuel(pow10, 5);
        }
        lemma_dec_digits_len(d.year as nat, 4);
        assert(s@ =~= file_name_spec(*d));
    }
    s
}

/// Prefixes a directory onto the dated file name.
pub fn build_output_path(dir: &str, d: &Date) -> (r: String)
    requires
        d.wf(),
    ensures
        r@ == dir@ + file_name_spec(*d),
{
    let mut s = dir.to_owned();
    let name = output_file_name(d);
    s.append(name.as_str());
    s
}

/// One account's line in the output file.
pub open spec fn line_spec(a: Account) -> Seq<char> {
    a.email@ + seq![':'] + a.password@ + seq!['\n']
}

/// The content appended for a run: one line per account, in run order.
pub open spec fn lines_spec(s: Seq<Account>) -> Seq<char>
    decreases s.len(),
{
    if s.len() == 0 {
        Seq::empty()
    } else {
        lines_spec(s.drop_last()) + line_spec(s.last())
    }
}

/// Appending one run's rendering after another's equals rendering both runs'
/// accounts in order: runs on the same date accumulate in the file, in run
/// order, and no line is overwritten.
pub proof fn lemma_lines_append(s1: Seq<Account>, s2: Seq<Account>)
    ensures
        lines_spec(s1 + s2) == lines_spec(s1) + lines_spec(s2),
    decreases s2.len(),
{
    if s2.len() == 0 {
        assert(s1 + s2 =~= s1);
        assert(lines_spec(s1) + lines_spec(s2) =~= lines_spec(s1));
    } else {
        lemma_lines_append(s1, s2.drop_last());
        assert((s1 + s2).drop_last() =~= s1 + s2.drop_last());
        assert((s1 + s2).last() == s2.last());
        assert(lines_spec(s1) + lines_spec(s2.drop_last()) + line_spec(s2.last()) =~= lines_spec(
            s1,
        ) + (lines_spec(s2.drop_last()) + line_spec(s2.last())));
    }
}

/// Renders the accumulated accounts as the exact content to append.
pub fn render_accounts(accounts: &Vec<Account>) -> (r: String)
    ensures
        r@ == lines_spec(accounts@),
{
    let mut s = String::new();
    let mut i: usize = 0;
    while i < accounts.len()
        invariant
            i <= accounts@.len(),
            s@ == lines_spec(accounts@.take(i as int)),
        decreases accounts@.len() - i,
    {
        let a = &accounts[i];
        s.append(a.email.as_str());
        s.append(":");
        s.append(a.password.as_str());
        s.append("\n");
        proof {
            reveal_strlit(":");
            reveal_strlit("\n");
            assert(accounts@.take(i as int + 1).drop_last() =~= accounts@.take(i as int));
            assert(accounts@.take(i as int + 1).last() == accounts@[i as int]);
            assert(s@ =~= lines_spec(accounts@.take(i as int + 1)));
        }
        i += 1;
    }
    proof {
        assert(accounts@.take(accounts@.len() as int) =~= accounts@);
    }
    s
}

/// Relies on chrono's Local::now with Datelike: the month number is 1 to 12
/// and the day of month 1 to 31.
#[verifier::external_body]
fn local_now_ymd() -> (r: (i32, u32, u32))
    ensures
        1 <= r.1 <= 12,
        1 <= r.2 <= 31,
{
    let now = chrono::Local::now();
    (now.year(), now.month(), now.day())
}

/// Reads today's date from the local clock. Whatever the clock hands back,
/// the decision is `Date::from_ymd`'s: a date exactly when every part is in
/// range, nothing when the clock's year cannot stand in a dated file name.
pub fn todays_date() -> (r: Option<Date>)
    ensures
        r matches Some(d) ==> d.wf(),
{
    let (y, m, d) = local_now_ymd();
    Date::from_ymd(y, m, d)
}

/// A planned write of the run's results: the file path to append to and the
/// exact content to append there.
pub struct SavePlan {
    pub path: String,
    pub content: String,
}

/// Saving fails only when the run produced no account.
#[derive(Clone, Copy, PartialEq, Eq, Structural, Debug)]
pub enum SaveError {
    NoAccounts,
}

/// Plans the append to the dated output file: an error exactly when no
/// account was generated; otherwise the directory plus the dated name, and
/// one line per account in run order.
pub fn plan_save(accounts: &Vec<Account>, dir: &str, date: &Date) -> (r: Result<
    SavePlan,
    SaveError,
>)
    requires
        date.wf(),
    ensures
        r is Ok <==> accounts@.len() > 0,
        r matches Ok(p) ==> p.path@ == dir@ + file_name_spec(*date) && p.content@ == lines_spec(
            accounts@,
        ),
        accounts@.len() == 0 ==> r == Err::<SavePlan, SaveError>(SaveError::NoAccounts),
{
    if accounts.len() == 0 {
        Err(SaveError::NoAccounts)
    } else {
        Ok(SavePlan { path: build_output_path(dir, date), content: render_accounts(accounts) })
    }
}

} // verus!
