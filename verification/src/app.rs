//! The application core: the loaded issues, the filter text, the selection
//! index, the input mode and the loading/error status, together with the
//! state transitions the event loop dispatches to.
//!
//! Fetching issues, opening a browser and writing to the clipboard are I/O
//! done by the surrounding program; the core only decides. `refresh` takes
//! the outcome of a fetch as an argument, `open_selected` hands back the URL
//! to open, and `copy_issue_prompt` hands back the text to place on the
//! clipboard.

use vstd::prelude::*;
use vstd::string::StringExecFns;

use crate::model::Issue;
use crate::text::{ci_match_at, contains_ci, dec_digits, pop_char, push_char, str_contains_ci, u64_to_string};

verus! {

/// Which part of the state key events mutate: navigation or the filter
/// buffer. Never both.
#[derive(Clone, Copy, Debug, PartialEq, Eq, Structural)]
pub enum InputMode {
    Normal,
    Filter,
}

/// An issue is visible through filter `f` when its title or some label name
/// contains `f` case-insensitively; the empty filter matches every issue.
pub open spec fn issue_matches(i: Issue, f: Seq<char>) -> bool {
    contains_ci(i.title@, f) || exists|k: int|
        0 <= k < i.labels@.len() && contains_ci((#[trigger] i.labels@[k]).name@, f)
}

/// The indices into `issues` of the issues visible through filter `f`, in
/// their original order.
pub open spec fn filtered_idxs(issues: Seq<Issue>, f: Seq<char>) -> Seq<int>
    decreases issues.len(),
{
    if issues.len() == 0 {
        Seq::empty()
    } else {
        let pre = filtered_idxs(issues.drop_last(), f);
        if issue_matches(issues.last(), f) {
            pre.push(issues.len() - 1)
        } else {
            pre
        }
    }
}

/// Law: the filtered view is an order-preserving subsequence of the loaded
/// issues. Its indices are valid and strictly increasing, every listed issue
/// matches the filter, and every matching issue is listed.
pub proof fn lemma_filtered_view(issues: Seq<Issue>, f: Seq<char>)
    ensures
        filtered_idxs(issues, f).len() <= issues.len(),
        forall|k: int|
            0 <= k < filtered_idxs(issues, f).len() ==> 0 <= #[trigger] filtered_idxs(
                issues,
                f,
            )[k] < issues.len(),
        forall|k: int|
            0 <= k < filtered_idxs(issues, f).len() ==> issue_matches(
                issues[#[trigger] filtered_idxs(issues, f)[k]],
                f,
            ),
        forall|k1: int, k2: int|
            0 <= k1 < k2 < filtered_idxs(issues, f).len() ==> #[trigger] filtered_idxs(
                issues,
                f,
            )[k1] < #[trigger] filtered_idxs(issues, f)[k2],
        forall|i: int|
            0 <= i < issues.len() && issue_matches(#[trigger] issues[i], f) ==> filtered_idxs(
                issues,
                f,
            ).contains(i),
    decreases issues.len(),
{
    if issues.len() > 0 {
        let prefix = issues.drop_last();
        lemma_filtered_view(prefix, f);
        let pre = filtered_idxs(prefix, f);
        let cur = filtered_idxs(issues, f);
        assert(forall|j: int| 0 <= j < issues.len() - 1 ==> prefix[j] == #[trigger] issues[j]);
        assert forall|i: int|
            0 <= i < issues.len() && issue_matches(#[trigger] issues[i], f) implies cur.contains(
            i,
        ) by {
            if i < issues.len() - 1 {
                assert(pre.contains(i));
                let k = choose|k: int| 0 <= k < pre.len() && pre[k] == i;
                assert(cur[k] == i);
            } else {
                assert(issues.last() == issues[i]);
                assert(cur[cur.len() - 1] == i);
            }
        }
    }
}

/// Law: the empty filter shows every issue, in the original order.
pub proof fn lemma_filtered_view_empty_filter(issues: Seq<Issue>, f: Seq<char>)
    requires
        f.len() == 0,
    ensures
        filtered_idxs(issues, f) == Seq::new(issues.len(), |i: int| i),
    decreases issues.len(),
{
    if issues.len() > 0 {
        lemma_filtered_view_empty_filter(issues.drop_last(), f);
        assert(ci_match_at(issues.last().title@, f, 0));
        assert(contains_ci(issues.last().title@, f));
        assert(issue_matches(issues.last(), f));
        assert(filtered_idxs(issues, f) =~= Seq::new(issues.len(), |i: int| i));
    } else {
        assert(filtered_idxs(issues, f) =~= Seq::new(issues.len(), |i: int| i));
    }
}

/// The canonical web URL of issue `number` of repository `repo`.
pub open spec fn issue_url_chars(repo: Seq<char>, number: u64) -> Seq<char> {
    "https://github.com/"@ + repo + "/issues/"@ + dec_digits(number as int)
}

/// The label names of `labels` joined with a comma and a space.
pub open spec fn label_names_chars(labels: Seq<crate::model::Label>) -> Seq<char>
    decreases labels.len(),
{
    if labels.len() == 0 {
        Seq::empty()
    } else if labels.len() == 1 {
        labels[0].name@
    } else {
        label_names_chars(labels.drop_last()) + ", "@ + labels.last().name@
    }
}

/// The comments section of the issue prompt: one block per comment, in
/// order, each naming its author and giving its body.
pub open spec fn comments_chars(cs: Seq<crate::model::Comment>) -> Seq<char>
    decreases cs.len(),
{
    if cs.len() == 0 {
        Seq::empty()
    } else {
        comments_chars(cs.drop_last()) + "**@"@ + cs.last().author@ + "**:\n"@ + cs.last().body@
            + "\n\n"@
    }
}

/// The plain-text summary of an issue that `copy_issue_prompt` hands to the
/// clipboard: header fields, a labels line when labels exist, a divider, the
/// body when present, and the comments when any exist.
pub open spec fn prompt_chars(repo: Seq<char>, i: Issue) -> Seq<char> {
    "GitHub Issue: "@ + repo + "#"@ + dec_digits(i.number as int) + "\n"@ + "Title: "@ + i.title@
        + "\n"@ + "Author: "@ + i.author.login@ + "\n"@ + "Created: "@ + i.created_at@ + "\n"@ + (
    if i.labels@.len() > 0 {
        "Labels: "@ + label_names_chars(i.labels@) + "\n"@
    } else {
        Seq::empty()
    }) + "\n---\n\n"@ + (match i.body {
        Some(b) => "## Description\n\n"@ + b@ + "\n"@,
        None => Seq::empty(),
    }) + (if i.comments@.len() > 0 {
        "\n## Comments\n\n"@ + comments_chars(i.comments@)
    } else {
        Seq::empty()
    })
}

/// The whole mutable state of the browser.
pub struct App {
    /// The repository identifier, `owner/name`; immutable after construction.
    pub repo: String,
    /// The loaded issues; replaced wholesale by a successful refresh.
    pub issues: Vec<Issue>,
    /// Zero-based index into the filtered view of `issues`.
    pub selected: usize,
    /// The live filter text.
    pub filter: String,
    pub input_mode: InputMode,
    /// True only while a fetch is in flight.
    pub loading: bool,
    /// The message of the last fetch failure, if the last fetch failed.
    pub error: Option<String>,
}

impl App {
    /// The indices of the issues visible through the current filter.
    pub open spec fn spec_filtered(self) -> Seq<int> {
        filtered_idxs(self.issues@, self.filter@)
    }

    /// The selection invariant: `selected` is a valid index into the
    /// filtered view when that view is non-empty, and 0 when it is empty.
    pub open spec fn wf(self) -> bool {
        &&& self.spec_filtered().len() > 0 ==> (self.selected as int) < self.spec_filtered().len()
        &&& self.spec_filtered().len() == 0 ==> self.selected == 0
    }

    /// A fresh state for `repo`: no issues, empty filter, Normal mode,
    /// loading set (the first fetch is about to run), no error.
    pub fn new(repo: String) -> (app: App)
        ensures
            app.repo == repo,
            app.issues@.len() == 0,
            app.selected == 0,
            app.filter@.len() == 0,
            app.input_mode == InputMode::Normal,
            app.loading == true,
            app.error is None,
            app.wf(),
    {
        App {
            repo,
            issues: Vec::new(),
            selected: 0,
            filter: String::new(),
            input_mode: InputMode::Normal,
            loading: true,
            error: None,
        }
    }

    /// Applies the outcome of a fetch. Success replaces the issues, resets
    /// the selection and clears the error; failure leaves the issues and the
    /// selection untouched and records the message. Either way the state is
    /// no longer loading afterwards.
    pub fn refresh(&mut self, fetched: Result<Vec<Issue>, String>)
        ensures
            final(self).loading == false,
            final(self).repo == old(self).repo,
            final(self).filter == old(self).filter,
            final(self).input_mode == old(self).input_mode,
            fetched matches Ok(v) ==> final(self).issues == v && final(self).selected == 0
                && final(self).error is None,
            fetched matches Err(e) ==> final(self).issues == old(self).issues
                && final(self).selected == old(self).selected && final(self).error == Some(e),
            old(self).wf() ==> final(self).wf(),
    {
        self.loading = true;
        self.error = None;
        match fetched {
            Ok(v) => {
                self.issues = v;
                self.selected = 0;
            },
            Err(e) => {
                self.error = Some(e);
            },
        }
        self.loading = false;
    }

    /// The filtered view: the indices into `issues` of the issues whose
    /// title or label names contain the filter text case-insensitively, in
    /// the original order. The empty filter shows everything.
    pub fn filtered_issues(&self) -> (r: Vec<usize>)
        ensures
            r@.map_values(|u: usize| u as int) == self.spec_filtered(),
    {
        let mut r: Vec<usize> = Vec::new();
        let mut i: usize = 0;
        let n = self.issues.len();
        while i < n
            invariant
                n == self.issues@.len(),
                i <= n,
                r@.map_values(|u: usize| u as int) == filtered_idxs(
                    self.issues@.take(i as int),
                    self.filter@,
                ),
            decreases n - i,
        {
            let ghost pre = self.issues@.take(i as int);
            let matched = issue_matches_ex(&self.issues[i], self.filter.as_str());
            if matched {
                r.push(i);
            }
            proof {
                assert(self.issues@.take(i + 1).drop_last() =~= pre);
                assert(self.issues@.take(i + 1).last() == self.issues@[i as int]);
                assert(r@.map_values(|u: usize| u as int) =~= filtered_idxs(
                    self.issues@.take(i + 1),
                    self.filter@,
                ));
            }
            i = i + 1;
        }
        proof {
            assert(self.issues@.take(n as int) =~= self.issues@);
        }
        r
    }

    /// Moves the selection down: one step towards the end of the filtered
    /// view, clamped to its last entry; a no-op on an empty view.
    pub fn next(&mut self)
        requires
            old(self).wf(),
        ensures
            final(self).wf(),
            old(self).spec_filtered().len() > 0 ==> final(self).selected == (if old(self).selected
                + 1 < old(self).spec_filtered().len() {
                old(self).selected + 1
            } else {
                old(self).spec_filtered().len() - 1
            }),
            old(self).spec_filtered().len() == 0 ==> final(self).selected == old(self).selected,
            final(self).repo == old(self).repo,
            final(self).issues == old(self).issues,
            final(self).filter == old(self).filter,
            final(self).input_mode == old(self).input_mode,
            final(self).loading == old(self).loading,
            final(self).error == old(self).error,
    {
        let filtered_len = self.filtered_issues().len();
        if filtered_len > 0 {
            let step = self.selected + 1;
            self.selected = if step < filtered_len {
                step
            } else {
                filtered_len - 1
            };
        }
    }

    /// Moves the selection up: one step towards the start of the filtered
    /// view, stopping at 0.
    pub fn previous(&mut self)
        ensures
            old(self).selected > 0 ==> final(self).selected == old(self).selected - 1,
            old(self).selected == 0 ==> final(self).selected == 0,
            old(self).wf() ==> final(self).wf(),
            final(self).repo == old(self).repo,
            final(self).issues == old(self).issues,
            final(self).filter == old(self).filter,
            final(self).input_mode == old(self).input_mode,
            final(self).loading == old(self).loading,
            final(self).error == old(self).error,
    {
        if self.selected > 0 {
            self.selected = self.selected - 1;
        }
    }

    /// The issue the selection points at, or None when the filtered view is
    /// empty (or the selection is out of range).
    pub fn selected_issue(&self) -> (r: Option<&Issue>)
        ensures
            r is Some <==> (self.selected as int) < self.spec_filtered().len(),
            r matches Some(iss) ==> *iss == self.issues@[self.spec_filtered()[self.selected as int]],
    {
        let f = self.filtered_issues();
        if self.selected < f.len() {
            proof {
                lemma_filtered_view(self.issues@, self.filter@);
            }
            let idx = f[self.selected];
            Some(&self.issues[idx])
        } else {
            None
        }
    }

    /// The URL of the selected issue, to be opened in a web browser by the
    /// caller; None when nothing is selected. Best effort: the state is not
    /// changed and failures of the actual launch are the caller's to ignore.
    pub fn open_selected(&self) -> (r: Option<String>)
        ensures
            r is Some <==> (self.selected as int) < self.spec_filtered().len(),
            r matches Some(u) ==> u@ == issue_url_chars(
                self.repo@,
                self.issues@[self.spec_filtered()[self.selected as int]].number,
            ),
    {
        match self.selected_issue() {
            Some(issue) => {
                let mut url = String::from_str("https://github.com/");
                url.append(self.repo.as_str());
                url.append("/issues/");
                let num = u64_to_string(issue.number);
                url.append(num.as_str());
                proof {
                    assert(url@ =~= issue_url_chars(
                        self.repo@,
                        self.issues@[self.spec_filtered()[self.selected as int]].number,
                    ));
                }
                Some(url)
            },
            None => None,
        }
    }

    /// Enters filter input mode; the filter text itself is unchanged.
    pub fn start_filter(&mut self)
        ensures
            *final(self) == (App { input_mode: InputMode::Filter, ..*old(self) }),
    {
        self.input_mode = InputMode::Filter;
    }

    /// Leaves filter input mode; the filter text itself is unchanged.
    pub fn exit_filter(&mut self)
        ensures
            *final(self) == (App { input_mode: InputMode::Normal, ..*old(self) }),
    {
        self.input_mode = InputMode::Normal;
    }

    /// Empties the filter and resets the selection to the top.
    pub fn clear_filter(&mut self)
        ensures
            final(self).filter@.len() == 0,
            final(self).selected == 0,
            final(self).wf(),
            final(self).repo == old(self).repo,
            final(self).issues == old(self).issues,
            final(self).input_mode == old(self).input_mode,
            final(self).loading == old(self).loading,
            final(self).error == old(self).error,
    {
        self.filter = String::new();
        self.selected = 0;
    }

    /// Appends one character to the filter and resets the selection to the
    /// top, as the filtered view may have changed.
    pub fn filter_push(&mut self, c: char)
        ensures
            final(self).filter@ == old(self).filter@.push(c),
            final(self).selected == 0,
            final(self).wf(),
            final(self).repo == old(self).repo,
            final(self).issues == old(self).issues,
            final(self).input_mode == old(self).input_mode,
            final(self).loading == old(self).loading,
            final(self).error == old(self).error,
    {
        push_char(&mut self.filter, c);
        self.selected = 0;
    }

    /// Removes the last character of the filter, if any, and resets the
    /// selection to the top.
    pub fn filter_pop(&mut self)
        ensures
            old(self).filter@.len() > 0 ==> final(self).filter@ == old(self).filter@.drop_last(),
            old(self).filter@.len() == 0 ==> final(self).filter@ == old(self).filter@,
            final(self).selected == 0,
            final(self).wf(),
            final(self).repo == old(self).repo,
            final(self).issues == old(self).issues,
            final(self).input_mode == old(self).input_mode,
            final(self).loading == old(self).loading,
            final(self).error == old(self).error,
    {
        let _ = pop_char(&mut self.filter);
        self.selected = 0;
    }

    /// The plain-text summary of the selected issue, to be placed on the
    /// clipboard by the caller; fails when nothing is selected. The state is
    /// not changed and nothing is written by the core itself.
    pub fn copy_issue_prompt(&self) -> (r: Result<String, String>)
        ensures
            r is Ok <==> (self.selected as int) < self.spec_filtered().len(),
            r matches Ok(p) ==> p@ == prompt_chars(
                self.repo@,
                self.issues@[self.spec_filtered()[self.selected as int]],
            ),
            r matches Err(m) ==> m@ == "No issue selected"@,
    {
        let f = self.filtered_issues();
        if self.selected >= f.len() {
            return Err(String::from_str("No issue selected"));
        }
        proof {
            lemma_filtered_view(self.issues@, self.filter@);
        }
        let idx = f[self.selected];
        let issue = &self.issues[idx];
        let ghost spec_issue = self.issues@[self.spec_filtered()[self.selected as int]];

        let mut prompt = String::from_str("GitHub Issue: ");
        prompt.append(self.repo.as_str());
        prompt.append("#");
        let num = u64_to_string(issue.number);
        prompt.append(num.as_str());
        prompt.append("\n");
        prompt.append("Title: ");
        prompt.append(issue.title.as_str());
        prompt.append("\n");
        prompt.append("Author: ");
        prompt.append(issue.author.login.as_str());
        prompt.append("\n");
        prompt.append("Created: ");
        prompt.append(issue.created_at.as_str());
        prompt.append("\n");

        let ghost header = "GitHub Issue: "@ + self.repo@ + "#"@ + dec_digits(
            spec_issue.number as int,
        ) + "\n"@ + "Title: "@ + spec_issue.title@ + "\n"@ + "Author: "@ + spec_issue.author.login@
            + "\n"@ + "Created: "@ + spec_issue.created_at@ + "\n"@;
        proof {
            assert(prompt@ =~= header);
        }

        if issue.labels.len() > 0 {
            prompt.append("Labels: ");
            let names = join_label_names(&issue.labels);
            prompt.append(names.as_str());
            prompt.append("\n");
        }
        let ghost with_labels = header + (if spec_issue.labels@.len() > 0 {
            "Labels: "@ + label_names_chars(spec_issue.labels@) + "\n"@
        } else {
            Seq::<char>::empty()
        });
        proof {
            assert(prompt@ =~= with_labels);
        }

        prompt.append("\n---\n\n");

        match &issue.body {
            Some(body) => {
                prompt.append("## Description\n\n");
                prompt.append(body.as_str());
                prompt.append("\n");
            },
            None => {},
        }
        let ghost with_body = with_labels + "\n---\n\n"@ + (match spec_issue.body {
            Some(b) => "## Description\n\n"@ + b@ + "\n"@,
            None => Seq::<char>::empty(),
        });
        proof {
            assert(prompt@ =~= with_body);
        }

        if issue.comments.len() > 0 {
            prompt.append("\n## Comments\n\n");
            let mut k: usize = 0;
            let cn = issue.comments.len();
            while k < cn
                invariant
                    cn == issue.comments@.len(),
                    k <= cn,
                    prompt@ == with_body + "\n## Comments\n\n"@ + comments_chars(
                        issue.comments@.take(k as int),
                    ),
            decreases cn - k,
            {
                let comment = &issue.comments[k];
                prompt.append("**@");
                prompt.append(comment.author.as_str());
                prompt.append("**:\n");
                prompt.append(comment.body.as_str());
                prompt.append("\n\n");
                proof {
                    assert(issue.comments@.take(k + 1).drop_last() =~= issue.comments@.take(
                        k as int,
                    ));
                    assert(issue.comments@.take(k + 1).last() == issue.comments@[k as int]);
                    assert(prompt@ =~= with_body + "\n## Comments\n\n"@ + comments_chars(
                        issue.comments@.take(k + 1),
                    ));
                }
                k = k + 1;
            }
            proof {
                assert(issue.comments@.take(cn as int) =~= issue.comments@);
            }
        }
        proof {
            assert(prompt@ =~= prompt_chars(self.repo@, spec_issue));
        }
        Ok(prompt)
    }
}

/// Whether one issue is visible through the given filter text.
pub fn issue_matches_ex(issue: &Issue, filter: &str) -> (r: bool)
    ensures
        r == issue_matches(*issue, filter@),
{
    if str_contains_ci(issue.title.as_str(), filter) {
        return true;
    }
    let n = issue.labels.len();
    let mut k: usize = 0;
    while k < n
        invariant
            n == issue.labels@.len(),
            k <= n,
            forall|m: int|
                0 <= m < k ==> !contains_ci((#[trigger] issue.labels@[m]).name@, filter@),
        decreases n - k,
    {
        if str_contains_ci(issue.labels[k].name.as_str(), filter) {
            return true;
        }
        k = k + 1;
    }
    false
}

/// The label names joined with a comma and a space, in order.
pub fn join_label_names(labels: &Vec<crate::model::Label>) -> (s: String)
    ensures
        s@ == label_names_chars(labels@),
{
    let mut s = String::new();
    let n = labels.len();
    let mut i: usize = 0;
    while i < n
        invariant
            n == labels@.len(),
            i <= n,
            s@ == label_names_chars(labels@.take(i as int)),
        decreases n - i,
    {
        if i > 0 {
            s.append(", ");
        }
        s.append(labels[i].name.as_str());
        proof {
            assert(labels@.take(i + 1).drop_last() =~= labels@.take(i as int));
            assert(labels@.take(i + 1).last() == labels@[i as int]);
            if i == 0 {
                assert(s@ =~= label_names_chars(labels@.take(i + 1)));
            } else {
                assert(s@ =~= label_names_chars(labels@.take(i + 1)));
            }
        }
        i = i + 1;
    }
    proof {
        assert(labels@.take(n as int) =~= labels@);
    }
    s
}

} // verus!
