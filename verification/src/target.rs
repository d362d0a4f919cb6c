//! The place of one report in the remote archive.

use vstd::prelude::*;
use vstd::string::StringExecFns;
use crate::date::{date_text, is_calendar_date, is_digit, lemma_dashed_text_reads_back, ReportDate};
use crate::text::chars_of;

verus! {

/// The repository that holds the archive.
pub const REPOSITORY: &'static str = "AIEC-Team/AIEC-agent-hub";

/// The branch that reports are committed to.
pub const BRANCH: &'static str = "main";

/// The directory of the archive under which each team has its own.
pub const ARCHIVE_ROOT: &'static str = "成员日志 members";

/// What follows the date in the name of a report in the archive.
pub const LOG_SUFFIX: &'static str = "_log.md";

/// The address of the contents interface, up to the repository.
pub const CONTENTS_API: &'static str = "https://api.github.com/repos/";

/// What stands between the repository and the path in an address.
pub const CONTENTS_SEGMENT: &'static str = "/contents/";

/// Whether `c` may not stand in a segment of a path: a separator, a
/// character that ends the path of an address or escapes another, or a
/// control character.
pub open spec fn is_unsafe_in_segment(c: char) -> bool {
    ||| c == '/'
    ||| c == '\\'
    ||| c == '?'
    ||| c == '#'
    ||| c == '%'
    ||| (c as u32) < 0x20
    ||| c as u32 == 0x7F
}

/// Whether `s` can stand as one segment of a path without leaving the
/// directory it is put in: it is not empty, is neither `.` nor `..`, and
/// holds no character that `is_unsafe_in_segment` names.
pub open spec fn is_safe_segment(s: Seq<char>) -> bool {
    &&& s.len() > 0
    &&& s != seq!['.']
    &&& s != seq!['.', '.']
    &&& forall|i: int| 0 <= i < s.len() ==> !is_unsafe_in_segment(#[trigger] s[i])
}

/// The path of a report in the archive: the root, the team, the member
/// and the file named after the dashed date.
pub open spec fn remote_path_text(team: Seq<char>, member: Seq<char>, dashed: Seq<char>) -> Seq<
    char,
> {
    ARCHIVE_ROOT@ + seq!['/'] + team + seq!['/'] + member + seq!['/'] + dashed + LOG_SUFFIX@
}

/// The address under which the contents interface serves `path`.
pub open spec fn contents_url_text(path: Seq<char>) -> Seq<char> {
    CONTENTS_API@ + REPOSITORY@ + CONTENTS_SEGMENT@ + path
}

/// The number of separators `/` in `s`.
pub open spec fn separators(s: Seq<char>) -> nat
    decreases s.len(),
{
    if s.len() == 0 {
        0
    } else if s.last() == '/' {
        separators(s.drop_last()) + 1
    } else {
        separators(s.drop_last())
    }
}

/// The separators of a text in two parts are those of the parts.
pub proof fn lemma_separators_of_parts(a: Seq<char>, b: Seq<char>)
    ensures
        separators(a + b) == separators(a) + separators(b),
    decreases b.len(),
{
    if b.len() == 0 {
        assert(a + b =~= a);
    } else {
        assert((a + b).drop_last() =~= a + b.drop_last());
        lemma_separators_of_parts(a, b.drop_last());
    }
}

/// A text that holds no `/` has no separators.
pub proof fn lemma_no_separators(s: Seq<char>)
    requires
        forall|i: int| 0 <= i < s.len() ==> #[trigger] s[i] != '/',
    ensures
        separators(s) == 0,
    decreases s.len(),
{
    if s.len() > 0 {
        lemma_no_separators(s.drop_last());
    }
}

/// A path built from safe segments and a date stays where it is meant to
/// lie: its only separators are the three that part the root, the team,
/// the member and the file, so that it names a file in the member's
/// directory, in the team's, below the root.
pub proof fn lemma_path_stays_in_subtree(team: Seq<char>, member: Seq<char>, y: int, m: int, d: int)
    requires
        is_safe_segment(team),
        is_safe_segment(member),
        is_calendar_date(y, m, d),
    ensures
        separators(remote_path_text(team, member, date_text(y, m, d, '-'))) == 3,
        separators(team) == 0,
        separators(member) == 0,
{
    reveal_strlit("成员日志 members");
    reveal_strlit("_log.md");
    let dashed = date_text(y, m, d, '-');
    let slash = seq!['/'];
    lemma_dashed_text_reads_back(y, m, d);
    assert forall|i: int| 0 <= i < dashed.len() implies #[trigger] dashed[i] != '/' by {
        if i != 4 && i != 7 {
            assert(is_digit(dashed[i]));
        }
    }
    assert forall|i: int| 0 <= i < team.len() implies #[trigger] team[i] != '/' by {
        assert(!is_unsafe_in_segment(team[i]));
    }
    assert forall|i: int| 0 <= i < member.len() implies #[trigger] member[i] != '/' by {
        assert(!is_unsafe_in_segment(member[i]));
    }
    lemma_no_separators(ARCHIVE_ROOT@);
    lemma_no_separators(team);
    lemma_no_separators(member);
    lemma_no_separators(dashed);
    lemma_no_separators(LOG_SUFFIX@);
    assert(separators(slash) == 1) by {
        assert(slash.drop_last().len() == 0);
        assert(separators(slash.drop_last()) == 0);
    }
    let root = ARCHIVE_ROOT@ + slash;
    let root_team = root + team;
    let team_dir = root_team + slash;
    let team_member = team_dir + member;
    let member_dir = team_member + slash;
    let stem = member_dir + dashed;
    lemma_separators_of_parts(ARCHIVE_ROOT@, slash);
    lemma_separators_of_parts(root, team);
    lemma_separators_of_parts(root_team, slash);
    lemma_separators_of_parts(team_dir, member);
    lemma_separators_of_parts(team_member, slash);
    lemma_separators_of_parts(member_dir, dashed);
    lemma_separators_of_parts(stem, LOG_SUFFIX@);
}

/// Decides `is_unsafe_in_segment`.
pub fn is_unsafe_char(c: char) -> (b: bool)
    ensures
        b == is_unsafe_in_segment(c),
{
    let n: u32 = c as u32;
    c == '/' || c == '\\' || c == '?' || c == '#' || c == '%' || n < 0x20 || n == 0x7F
}

/// Decides `is_safe_segment`.
pub fn is_safe_path_segment(segment: &str) -> (b: bool)
    ensures
        b == is_safe_segment(segment@),
{
    let v = chars_of(segment);
    let n = v.len();
    if n == 0 {
        return false;
    }
    if v[0] == '.' && (n == 1 || (n == 2 && v[1] == '.')) {
        assert(v@ =~= seq!['.'] || v@ =~= seq!['.', '.']);
        return false;
    }
    assert(v@ != seq!['.'] && v@ != seq!['.', '.']) by {
        if v@ == seq!['.'] {
            assert(v@[0] == '.');
        }
        if v@ == seq!['.', '.'] {
            assert(v@[0] == '.' && v@[1] == '.');
        }
    }
    let mut i: usize = 0;
    while i < n
        invariant
            i <= n == v.len(),
            v@ == segment@,
            forall|j: int| 0 <= j < i ==> !is_unsafe_in_segment(#[trigger] v@[j]),
        decreases n - i,
    {
        if is_unsafe_char(v[i]) {
            assert(is_unsafe_in_segment(v@[i as int]));
            return false;
        }
        i = i + 1;
    }
    true
}

/// One file of the archive: the report of one member of one team for one
/// date, on the branch `BRANCH` of `REPOSITORY`.
#[derive(Debug, PartialEq, Eq)]
pub struct RemoteTarget {
    team: String,
    member: String,
    date: ReportDate,
}

impl RemoteTarget {
    #[verifier::type_invariant]
    spec fn valid(self) -> bool {
        is_safe_segment(self.team@) && is_safe_segment(self.member@)
    }

    /// The team's segment of the path.
    pub closed spec fn team_text(self) -> Seq<char> {
        self.team@
    }

    /// The member's segment of the path.
    pub closed spec fn member_text(self) -> Seq<char> {
        self.member@
    }

    /// The date of the report.
    pub closed spec fn date_value(self) -> ReportDate {
        self.date
    }

    /// The path of the file in the archive.
    pub open spec fn path_text(self) -> Seq<char> {
        remote_path_text(self.team_text(), self.member_text(), self.date_value().dashed_text())
    }

    /// The address of the file at the contents interface.
    pub open spec fn url_text(self) -> Seq<char> {
        contents_url_text(self.path_text())
    }

    /// The target for `team`, `member` and `date`, where both names are
    /// safe segments of a path; `None` where one is not.
    pub fn new(team: &str, member: &str, date: ReportDate) -> (r: Option<RemoteTarget>)
        ensures
            r is Some <==> is_safe_segment(team@) && is_safe_segment(member@),
            r matches Some(t) ==> {
                &&& t.team_text() == team@
                &&& t.member_text() == member@
                &&& t.date_value() == date
            },
    {
        if is_safe_path_segment(team) && is_safe_path_segment(member) {
            Some(RemoteTarget { team: String::from_str(team), member: String::from_str(member), date })
        } else {
            None
        }
    }

    /// The team's segment of the path.
    pub fn team(&self) -> (out: &str)
        ensures
            out@ == self.team_text(),
            is_safe_segment(out@),
    {
        proof {
            use_type_invariant(self);
        }
        self.team.as_str()
    }

    /// The member's segment of the path.
    pub fn member(&self) -> (out: &str)
        ensures
            out@ == self.member_text(),
            is_safe_segment(out@),
    {
        proof {
            use_type_invariant(self);
        }
        self.member.as_str()
    }

    /// The date of the report.
    pub fn date(&self) -> (out: &ReportDate)
        ensures
            *out == self.date_value(),
    {
        &self.date
    }

    /// The path of the file in the archive.
    pub fn path(&self) -> (out: String)
        ensures
            out@ == self.path_text(),
    {
        let mut out = String::from_str(ARCHIVE_ROOT);
        out.append("/");
        out.append(self.team.as_str());
        out.append("/");
        out.append(self.member.as_str());
        out.append("/");
        out.append(self.date.dashed().as_str());
        out.append(LOG_SUFFIX);
        proof {
            reveal_strlit("/");
            assert("/"@ =~= seq!['/']);
            assert(out@ =~= self.path_text());
        }
        out
    }

    /// The address of the file at the contents interface.
    pub fn url(&self) -> (out: String)
        ensures
            out@ == self.url_text(),
    {
        let mut out = String::from_str(CONTENTS_API);
        out.append(REPOSITORY);
        out.append(CONTENTS_SEGMENT);
        out.append(self.path().as_str());
        assert(out@ =~= self.url_text());
        out
    }
}

} // verus!
