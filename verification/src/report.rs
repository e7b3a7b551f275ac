//! Problem reports: collected logs with everything private removed.
//!
//! A report gathers system information and log contents; before anything
//! is stored it passes through the redaction passes, so account numbers,
//! addresses, the home directory and caller-chosen phrases never reach
//! the rendered report. Reading log files and writing the report to disk
//! happen outside this crate; the report itself is assembled here.

use vstd::prelude::*;

use crate::redact::redact_account_number;
use crate::redact::redact_network_info;
use crate::redact::spec_redact_account;
use crate::redact::spec_redact_net;
use crate::text::contains_substr;
use crate::text::replace_all;
use crate::text::spec_contains_substr;
use crate::text::spec_replace_all;

verus! {

/// The model of a list of strings.
pub open spec fn strings_view(s: Seq<String>) -> Seq<Seq<char>> {
    s.map_values(|t: String| t@)
}

/// The model of a list of labelled texts.
pub open spec fn pairs_view(s: Seq<(String, String)>) -> Seq<(Seq<char>, Seq<char>)> {
    s.map_values(|p: (String, String)| (p.0@, p.1@))
}

/// The text after the home-directory pass: the home path, when known and
/// nonempty, becomes a tilde.
pub open spec fn spec_home_pass(s: Seq<char>, home: Option<Seq<char>>) -> Seq<char> {
    match home {
        Some(h) => spec_replace_all(s, h, "~"@),
        None => s,
    }
}

/// The text after the custom-phrase passes, applied in order.
pub open spec fn spec_custom_pass(s: Seq<char>, phrases: Seq<Seq<char>>) -> Seq<char>
    decreases phrases.len(),
{
    if phrases.len() == 0 {
        s
    } else {
        spec_custom_pass(spec_replace_all(s, phrases[0], "[REDACTED]"@), phrases.skip(1))
    }
}

/// The complete redaction: account numbers, then the home directory,
/// then network identifiers, then the custom phrases.
pub open spec fn spec_redact(
    s: Seq<char>,
    home: Option<Seq<char>>,
    phrases: Seq<Seq<char>>,
) -> Seq<char> {
    spec_custom_pass(spec_redact_net(spec_home_pass(spec_redact_account(s), home)), phrases)
}

/// The nonempty strings of a list, in order.
pub open spec fn spec_retain_nonempty(s: Seq<Seq<char>>) -> Seq<Seq<char>>
    decreases s.len(),
{
    if s.len() == 0 {
        Seq::empty()
    } else if s[0].len() > 0 {
        seq![s[0]] + spec_retain_nonempty(s.skip(1))
    } else {
        spec_retain_nonempty(s.skip(1))
    }
}

/// Retaining distributes over appending one element at the end.
proof fn lemma_retain_push(s: Seq<Seq<char>>, t: Seq<char>)
    ensures
        spec_retain_nonempty(s.push(t)) == spec_retain_nonempty(s) + (if t.len() > 0 {
            seq![t]
        } else {
            Seq::<Seq<char>>::empty()
        }),
    decreases s.len(),
{
    if s.len() == 0 {
        assert(s.push(t).len() == 1);
        assert(s.push(t)[0] == t);
        assert(s.push(t).skip(1) =~= Seq::<Seq<char>>::empty());
        assert(spec_retain_nonempty(Seq::<Seq<char>>::empty()) =~= Seq::<Seq<char>>::empty());
        assert(spec_retain_nonempty(s) =~= Seq::<Seq<char>>::empty());
        if t.len() > 0 {
            assert(spec_retain_nonempty(s.push(t)) =~= seq![t] + spec_retain_nonempty(
                s.push(t).skip(1),
            ));
            assert(seq![t] + Seq::<Seq<char>>::empty() =~= seq![t]);
            assert(spec_retain_nonempty(s) + seq![t] =~= seq![t]);
        } else {
            assert(spec_retain_nonempty(s.push(t)) =~= spec_retain_nonempty(s.push(t).skip(1)));
            assert(spec_retain_nonempty(s) + Seq::<Seq<char>>::empty() =~= Seq::<
                Seq<char>,
            >::empty());
        }
    } else {
        assert(s.push(t).skip(1) =~= s.skip(1).push(t));
        lemma_retain_push(s.skip(1), t);
        assert(s.push(t)[0] == s[0]);
        if s[0].len() > 0 {
            assert(seq![s[0]] + (spec_retain_nonempty(s.skip(1)) + (if t.len() > 0 {
                seq![t]
            } else {
                Seq::<Seq<char>>::empty()
            })) =~= (seq![s[0]] + spec_retain_nonempty(s.skip(1))) + (if t.len() > 0 {
                seq![t]
            } else {
                Seq::<Seq<char>>::empty()
            }));
        }
    }
}

/// A problem report under construction: system information and redacted
/// logs, with duplicate log paths ignored.
pub struct ProblemReport {
    /// System information lines, as key and value.
    pub metadata: Vec<(String, String)>,
    /// The collected logs: redacted path and redacted content.
    pub logs: Vec<(String, String)>,
    /// The paths already collected, to ignore duplicates.
    pub log_paths: Vec<String>,
    /// The caller's phrases to remove from every text.
    pub redact_custom_strings: Vec<String>,
    /// The home directory to replace by a tilde, when known.
    pub home_dir: Option<String>,
}

impl ProblemReport {
    /// The model of the home-directory setting.
    pub open spec fn spec_home(&self) -> Option<Seq<char>> {
        match self.home_dir {
            Some(h) => Some(h@),
            None => None,
        }
    }

    /// The model of the custom phrases.
    pub open spec fn spec_phrases(&self) -> Seq<Seq<char>> {
        strings_view(self.redact_custom_strings@)
    }

    /// Creates a new, empty problem report. Logs can be added with
    /// `add_log`; every stored text has all nonempty strings of
    /// `redact_custom_strings` removed from it.
    pub fn new(redact_custom_strings: Vec<String>) -> (r: ProblemReport)
        ensures
            r.metadata@ =~= Seq::<(String, String)>::empty(),
            r.logs@ =~= Seq::<(String, String)>::empty(),
            r.log_paths@ =~= Seq::<String>::empty(),
            r.spec_phrases() =~= spec_retain_nonempty(strings_view(redact_custom_strings@)),
            r.home_dir is None,
    {
        let mut retained: Vec<String> = Vec::new();
        let mut i: usize = 0;
        proof {
            assert(strings_view(redact_custom_strings@.take(0)) =~= Seq::<Seq<char>>::empty());
            assert(spec_retain_nonempty(Seq::<Seq<char>>::empty()) =~= Seq::<Seq<char>>::empty());
            assert(strings_view(retained@) =~= Seq::<Seq<char>>::empty());
        }
        while i < redact_custom_strings.len()
            invariant
                i <= redact_custom_strings@.len(),
                strings_view(retained@) =~= spec_retain_nonempty(
                    strings_view(redact_custom_strings@.take(i as int)),
                ),
            decreases redact_custom_strings.len() - i,
        {
            let phrase = redact_custom_strings[i].clone();
            proof {
                let prefix = strings_view(redact_custom_strings@.take(i as int));
                assert(strings_view(redact_custom_strings@.take(i as int + 1)) =~= prefix.push(
                    redact_custom_strings@[i as int]@,
                ));
                lemma_retain_push(prefix, redact_custom_strings@[i as int]@);
            }
            if phrase.as_str().unicode_len() > 0 {
                proof {
                    let ghost old_retained = strings_view(retained@);
                    assert(strings_view(retained@.push(redact_custom_strings@[i as int]))
                        =~= old_retained.push(redact_custom_strings@[i as int]@));
                }
                retained.push(phrase);
            }
            i = i + 1;
        }
        proof {
            assert(redact_custom_strings@.take(redact_custom_strings@.len() as int)
                =~= redact_custom_strings@);
        }
        ProblemReport {
            metadata: Vec::new(),
            logs: Vec::new(),
            log_paths: Vec::new(),
            redact_custom_strings: retained,
            home_dir: None,
        }
    }

    /// Records the home directory so that later texts can replace it.
    pub fn set_home_dir(&mut self, home: String)
        ensures
            final(self).home_dir matches Some(h) && h == home,
            final(self).metadata == old(self).metadata,
            final(self).logs == old(self).logs,
            final(self).log_paths == old(self).log_paths,
            final(self).redact_custom_strings == old(self).redact_custom_strings,
    {
        self.home_dir = Some(home);
    }

    /// Adds one line of system information.
    pub fn add_metadata(&mut self, key: String, value: String)
        ensures
            final(self).metadata@ =~= old(self).metadata@.push((key, value)),
            final(self).logs == old(self).logs,
            final(self).log_paths == old(self).log_paths,
            final(self).redact_custom_strings == old(self).redact_custom_strings,
            final(self).home_dir == old(self).home_dir,
    {
        self.metadata.push((key, value));
    }

    /// Applies the complete redaction to one text.
    pub fn redact(&self, input: &str) -> (r: String)
        ensures
            r@ == spec_redact(input@, self.spec_home(), self.spec_phrases()),
    {
        let pass1 = redact_account_number(input);
        let pass2 = match &self.home_dir {
            Some(home) => replace_all(pass1.as_str(), home.as_str(), "~"),
            None => pass1,
        };
        let pass3 = redact_network_info(pass2.as_str());
        let mut text = pass3;
        let ghost phrases = self.spec_phrases();
        let mut i: usize = 0;
        proof {
            assert(phrases.skip(0) =~= phrases);
        }
        while i < self.redact_custom_strings.len()
            invariant
                phrases == strings_view(self.redact_custom_strings@),
                i <= phrases.len(),
                spec_custom_pass(text@, phrases.skip(i as int)) == spec_custom_pass(
                    spec_redact_net(
                        spec_home_pass(spec_redact_account(input@), self.spec_home()),
                    ),
                    phrases,
                ),
            decreases self.redact_custom_strings.len() - i,
        {
            let ghost before = text@;
            text = replace_all(
                text.as_str(),
                self.redact_custom_strings[i].as_str(),
                "[REDACTED]",
            );
            proof {
                assert(phrases.skip(i as int)[0] == phrases[i as int]);
                assert(phrases.skip(i as int).skip(1) =~= phrases.skip(i as int + 1));
            }
            i = i + 1;
        }
        proof {
            assert(phrases.skip(phrases.len() as int) =~= Seq::<Seq<char>>::empty());
        }
        text
    }

    /// Returns whether a path was already collected.
    fn knows_path(&self, path: &String) -> (r: bool)
        ensures
            r == strings_view(self.log_paths@).contains(path@),
    {
        let mut i: usize = 0;
        while i < self.log_paths.len()
            invariant
                i <= self.log_paths@.len(),
                forall|q: int| 0 <= q < i ==> strings_view(self.log_paths@)[q] != path@,
            decreases self.log_paths.len() - i,
        {
            if self.log_paths[i].eq(path) {
                proof {
                    assert(strings_view(self.log_paths@)[i as int] == path@);
                }
                return true;
            }
            i = i + 1;
        }
        false
    }

    /// Attaches one log to the report under its path, redacted; a path
    /// seen before is ignored. The embedding reads the file and passes
    /// its content, or the error text that stands in for it.
    pub fn add_log(&mut self, path: String, content: &str)
        ensures
            final(self).metadata == old(self).metadata,
            final(self).redact_custom_strings == old(self).redact_custom_strings,
            final(self).home_dir == old(self).home_dir,
            strings_view(old(self).log_paths@).contains(path@) ==> final(self).logs == old(
                self,
            ).logs && final(self).log_paths == old(self).log_paths,
            !strings_view(old(self).log_paths@).contains(path@) ==> {
                &&& strings_view(final(self).log_paths@) =~= strings_view(
                    old(self).log_paths@,
                ).push(path@)
                &&& pairs_view(final(self).logs@) =~= pairs_view(old(self).logs@).push(
                    (
                        spec_redact(path@, old(self).spec_home(), old(self).spec_phrases()),
                        spec_redact(content@, old(self).spec_home(), old(self).spec_phrases()),
                    ),
                )
            },
    {
        if self.knows_path(&path) {
            return ;
        }
        let redacted_path = self.redact(path.as_str());
        let redacted_content = self.redact(content);
        proof {
            let ghost paths = strings_view(self.log_paths@);
            assert(strings_view(self.log_paths@.push(path)) =~= paths.push(path@));
            let ghost logs = pairs_view(self.logs@);
        }
        let ghost old_logs = pairs_view(self.logs@);
        self.log_paths.push(path);
        proof {
            assert(pairs_view(
                self.logs@.push((redacted_path, redacted_content)),
            ) =~= old_logs.push((redacted_path@, redacted_content@)));
        }
        self.logs.push((redacted_path, redacted_content));
    }

    /// Attaches an error text to the report under a message label; the
    /// error is redacted like any other text.
    pub fn add_error(&mut self, message: &str, error: &str)
        ensures
            final(self).metadata == old(self).metadata,
            final(self).log_paths == old(self).log_paths,
            final(self).redact_custom_strings == old(self).redact_custom_strings,
            final(self).home_dir == old(self).home_dir,
            pairs_view(final(self).logs@) =~= pairs_view(old(self).logs@).push(
                (message@, spec_redact(error@, old(self).spec_home(), old(self).spec_phrases())),
            ),
    {
        let redacted_error = self.redact(error);
        let mut label = String::new();
        label.append(message);
        let ghost old_logs = pairs_view(self.logs@);
        proof {
            assert(pairs_view(self.logs@.push((label, redacted_error))) =~= old_logs.push(
                (label@, redacted_error@),
            ));
        }
        self.logs.push((label, redacted_error));
    }
}

/// Returns whether a log path belongs to a tunnel log, which is listed
/// before the other logs of a report.
pub fn is_tunnel_log(path: &str) -> (r: bool)
    ensures
        r == spec_contains_substr(path@, "openvpn"@),
{
    contains_substr(path, "openvpn")
}

} // verus!

verus! {

/// The rendered system-information block: one `key: value` line per
/// entry.
pub open spec fn spec_render_metadata(metadata: Seq<(Seq<char>, Seq<char>)>) -> Seq<char>
    decreases metadata.len(),
{
    if metadata.len() == 0 {
        Seq::empty()
    } else {
        metadata[0].0 + ": "@ + metadata[0].1 + "\n"@ + spec_render_metadata(metadata.skip(1))
    }
}

/// The rendered log blocks: each log under its delimited label.
pub open spec fn spec_render_logs(logs: Seq<(Seq<char>, Seq<char>)>) -> Seq<char>
    decreases logs.len(),
{
    if logs.len() == 0 {
        Seq::empty()
    } else {
        "====================\n"@ + "Log: "@ + logs[0].0 + "\n"@ + "====================\n"@
            + logs[0].1 + "\n"@ + spec_render_logs(logs.skip(1))
    }
}

/// The rendered report: the system information, a blank line, then the
/// logs.
pub open spec fn spec_render(
    metadata: Seq<(Seq<char>, Seq<char>)>,
    logs: Seq<(Seq<char>, Seq<char>)>,
) -> Seq<char> {
    "System information:\n"@ + spec_render_metadata(metadata) + "\n"@ + spec_render_logs(logs)
}

impl ProblemReport {
    /// Renders the report as text, ready to be written out by the
    /// embedding.
    pub fn render(&self) -> (r: String)
        ensures
            r@ == spec_render(pairs_view(self.metadata@), pairs_view(self.logs@)),
    {
        let ghost metadata_v = pairs_view(self.metadata@);
        let ghost logs_v = pairs_view(self.logs@);
        let mut out = String::new();
        out.append("System information:\n");
        let mut i: usize = 0;
        proof {
            assert(metadata_v.skip(0) =~= metadata_v);
        }
        while i < self.metadata.len()
            invariant
                metadata_v == pairs_view(self.metadata@),
                i <= metadata_v.len(),
                out@ + spec_render_metadata(metadata_v.skip(i as int)) == "System information:\n"@
                    + spec_render_metadata(metadata_v),
            decreases self.metadata.len() - i,
        {
            proof {
                assert(metadata_v.skip(i as int)[0] == metadata_v[i as int]);
                assert(metadata_v.skip(i as int).skip(1) =~= metadata_v.skip(i as int + 1));
            }
            out.append(self.metadata[i].0.as_str());
            out.append(": ");
            out.append(self.metadata[i].1.as_str());
            out.append("\n");
            i = i + 1;
        }
        proof {
            assert(metadata_v.skip(metadata_v.len() as int) =~= Seq::<(Seq<char>, Seq<
                char,
            >)>::empty());
        }
        out.append("\n");
        let mut j: usize = 0;
        let ghost header = out@;
        proof {
            assert(logs_v.skip(0) =~= logs_v);
        }
        while j < self.logs.len()
            invariant
                logs_v == pairs_view(self.logs@),
                j <= logs_v.len(),
                header == "System information:\n"@ + spec_render_metadata(metadata_v) + "\n"@,
                out@ + spec_render_logs(logs_v.skip(j as int)) == header + spec_render_logs(
                    logs_v,
                ),
            decreases self.logs.len() - j,
        {
            proof {
                assert(logs_v.skip(j as int)[0] == logs_v[j as int]);
                assert(logs_v.skip(j as int).skip(1) =~= logs_v.skip(j as int + 1));
            }
            out.append("====================\n");
            out.append("Log: ");
            out.append(self.logs[j].0.as_str());
            out.append("\n");
            out.append("====================\n");
            out.append(self.logs[j].1.as_str());
            out.append("\n");
            j = j + 1;
        }
        proof {
            assert(logs_v.skip(logs_v.len() as int) =~= Seq::<(Seq<char>, Seq<char>)>::empty());
        }
        out
    }
}

/// Whether a collected file is a tunnel log.
pub open spec fn spec_is_tunnel(entry: (Seq<char>, Seq<char>)) -> bool {
    spec_contains_substr(entry.0, "openvpn"@)
}

/// The entries whose tunnel-log status matches, in order.
pub open spec fn spec_filter_logs(
    entries: Seq<(Seq<char>, Seq<char>)>,
    want_tunnel: bool,
) -> Seq<(Seq<char>, Seq<char>)>
    decreases entries.len(),
{
    if entries.len() == 0 {
        Seq::empty()
    } else if spec_is_tunnel(entries[0]) == want_tunnel {
        seq![entries[0]] + spec_filter_logs(entries.skip(1), want_tunnel)
    } else {
        spec_filter_logs(entries.skip(1), want_tunnel)
    }
}

/// Filtering distributes over appending one entry at the end.
proof fn lemma_filter_logs_push(
    entries: Seq<(Seq<char>, Seq<char>)>,
    entry: (Seq<char>, Seq<char>),
    want_tunnel: bool,
)
    ensures
        spec_filter_logs(entries.push(entry), want_tunnel) == spec_filter_logs(
            entries,
            want_tunnel,
        ) + (if spec_is_tunnel(entry) == want_tunnel {
            seq![entry]
        } else {
            Seq::<(Seq<char>, Seq<char>)>::empty()
        }),
    decreases entries.len(),
{
    let tail: Seq<(Seq<char>, Seq<char>)> = if spec_is_tunnel(entry) == want_tunnel {
        seq![entry]
    } else {
        Seq::empty()
    };
    if entries.len() == 0 {
        assert(entries.push(entry).len() == 1);
        assert(entries.push(entry)[0] == entry);
        assert(entries.push(entry).skip(1) =~= Seq::<(Seq<char>, Seq<char>)>::empty());
        assert(spec_filter_logs(Seq::<(Seq<char>, Seq<char>)>::empty(), want_tunnel) =~= Seq::<
            (Seq<char>, Seq<char>),
        >::empty());
        if spec_is_tunnel(entry) == want_tunnel {
            assert(spec_filter_logs(entries.push(entry), want_tunnel) =~= seq![entry]
                + spec_filter_logs(entries.push(entry).skip(1), want_tunnel));
            assert(seq![entry] + Seq::<(Seq<char>, Seq<char>)>::empty() =~= seq![entry]);
            assert(spec_filter_logs(entries, want_tunnel) + tail =~= seq![entry]);
        } else {
            assert(spec_filter_logs(entries, want_tunnel) + tail =~= Seq::<
                (Seq<char>, Seq<char>),
            >::empty());
        }
    } else {
        assert(entries.push(entry).skip(1) =~= entries.skip(1).push(entry));
        lemma_filter_logs_push(entries.skip(1), entry, want_tunnel);
        assert(entries.push(entry)[0] == entries[0]);
        if spec_is_tunnel(entries[0]) == want_tunnel {
            assert(seq![entries[0]] + (spec_filter_logs(entries.skip(1), want_tunnel) + tail)
                =~= (seq![entries[0]] + spec_filter_logs(entries.skip(1), want_tunnel)) + tail);
        }
    }
}

/// The report state after attaching a list of logs in order, with the
/// duplicate-path rule applied.
pub open spec fn spec_attach_logs(
    paths: Seq<Seq<char>>,
    logs: Seq<(Seq<char>, Seq<char>)>,
    entries: Seq<(Seq<char>, Seq<char>)>,
    home: Option<Seq<char>>,
    phrases: Seq<Seq<char>>,
) -> (Seq<Seq<char>>, Seq<(Seq<char>, Seq<char>)>)
    decreases entries.len(),
{
    if entries.len() == 0 {
        (paths, logs)
    } else {
        let entry = entries[0];
        if paths.contains(entry.0) {
            spec_attach_logs(paths, logs, entries.skip(1), home, phrases)
        } else {
            spec_attach_logs(
                paths.push(entry.0),
                logs.push(
                    (spec_redact(entry.0, home, phrases), spec_redact(entry.1, home, phrases)),
                ),
                entries.skip(1),
                home,
                phrases,
            )
        }
    }
}

/// Attaching distributes over appending one entry at the end.
proof fn lemma_attach_logs_push(
    paths: Seq<Seq<char>>,
    logs: Seq<(Seq<char>, Seq<char>)>,
    entries: Seq<(Seq<char>, Seq<char>)>,
    entry: (Seq<char>, Seq<char>),
    home: Option<Seq<char>>,
    phrases: Seq<Seq<char>>,
)
    ensures
        ({
            let mid = spec_attach_logs(paths, logs, entries, home, phrases);
            spec_attach_logs(paths, logs, entries.push(entry), home, phrases)
                == spec_attach_logs(mid.0, mid.1, seq![entry], home, phrases)
        }),
    decreases entries.len(),
{
    if entries.len() == 0 {
        assert(entries.push(entry).len() == 1);
        assert(entries.push(entry)[0] == entry);
        assert(entries.push(entry).skip(1) =~= Seq::<(Seq<char>, Seq<char>)>::empty());
        assert(seq![entry][0] == entry);
        assert(seq![entry].skip(1) =~= Seq::<(Seq<char>, Seq<char>)>::empty());
    } else {
        assert(entries.push(entry).skip(1) =~= entries.skip(1).push(entry));
        assert(entries.push(entry)[0] == entries[0]);
        let entry0 = entries[0];
        if paths.contains(entry0.0) {
            lemma_attach_logs_push(paths, logs, entries.skip(1), entry, home, phrases);
        } else {
            lemma_attach_logs_push(
                paths.push(entry0.0),
                logs.push(
                    (spec_redact(entry0.0, home, phrases), spec_redact(entry0.1, home, phrases)),
                ),
                entries.skip(1),
                entry,
                home,
                phrases,
            );
        }
    }
}

} // verus!

verus! {

/// Attaching distributes over list concatenation.
proof fn lemma_attach_logs_concat(
    paths: Seq<Seq<char>>,
    logs: Seq<(Seq<char>, Seq<char>)>,
    first: Seq<(Seq<char>, Seq<char>)>,
    second: Seq<(Seq<char>, Seq<char>)>,
    home: Option<Seq<char>>,
    phrases: Seq<Seq<char>>,
)
    ensures
        ({
            let mid = spec_attach_logs(paths, logs, first, home, phrases);
            spec_attach_logs(paths, logs, first + second, home, phrases) == spec_attach_logs(
                mid.0,
                mid.1,
                second,
                home,
                phrases,
            )
        }),
    decreases first.len(),
{
    if first.len() == 0 {
        assert(first + second =~= second);
    } else {
        assert((first + second)[0] == first[0]);
        assert((first + second).skip(1) =~= first.skip(1) + second);
        let entry0 = first[0];
        if paths.contains(entry0.0) {
            lemma_attach_logs_concat(paths, logs, first.skip(1), second, home, phrases);
        } else {
            lemma_attach_logs_concat(
                paths.push(entry0.0),
                logs.push(
                    (spec_redact(entry0.0, home, phrases), spec_redact(entry0.1, home, phrases)),
                ),
                first.skip(1),
                second,
                home,
                phrases,
            );
        }
    }
}


impl ProblemReport {
    /// Attaches one log and relates the report to one step of the
    /// attach fold.
    fn add_log_step(&mut self, path: String, content: &str)
        ensures
            final(self).metadata == old(self).metadata,
            final(self).redact_custom_strings == old(self).redact_custom_strings,
            final(self).home_dir == old(self).home_dir,
            (strings_view(final(self).log_paths@), pairs_view(final(self).logs@))
                == spec_attach_logs(
                strings_view(old(self).log_paths@),
                pairs_view(old(self).logs@),
                seq![(path@, content@)],
                old(self).spec_home(),
                old(self).spec_phrases(),
            ),
    {
        let ghost pre_paths = strings_view(self.log_paths@);
        let ghost pre_logs = pairs_view(self.logs@);
        let ghost home = self.spec_home();
        let ghost phrases = self.spec_phrases();
        let ghost entry = (path@, content@);
        self.add_log(path, content);
        proof {
            reveal_with_fuel(spec_attach_logs, 3);
            let singleton: Seq<(Seq<char>, Seq<char>)> = seq![entry];
            assert(singleton[0] == entry);
            assert(singleton.skip(1) =~= Seq::<(Seq<char>, Seq<char>)>::empty());
            let stepped = spec_attach_logs(pre_paths, pre_logs, singleton, home, phrases);
            if pre_paths.contains(entry.0) {
                assert(stepped == (pre_paths, pre_logs));
            } else {
                assert(stepped.0 =~= pre_paths.push(entry.0));
                assert(stepped.1 =~= pre_logs.push(
                    (spec_redact(entry.0, home, phrases), spec_redact(entry.1, home, phrases)),
                ));
                assert(strings_view(self.log_paths@) =~= stepped.0);
                assert(pairs_view(self.logs@) =~= stepped.1);
            }
        }
    }
}

/// Collects a problem report from the already-read log files: tunnel
/// logs come first, then the other logs, then the explicitly named extra
/// logs, each under the duplicate-path rule and fully redacted.
#[verifier::rlimit(40)]
pub fn collect_report(
    log_files: Vec<(String, String)>,
    extra_logs: Vec<(String, String)>,
    redact_custom_strings: Vec<String>,
) -> (r: ProblemReport)
    ensures
        ({
            let phrases = spec_retain_nonempty(strings_view(redact_custom_strings@));
            let ordered = spec_filter_logs(pairs_view(log_files@), true) + spec_filter_logs(
                pairs_view(log_files@),
                false,
            );
            let with_files = spec_attach_logs(
                Seq::empty(),
                Seq::empty(),
                ordered,
                None,
                phrases,
            );
            let with_extras = spec_attach_logs(
                with_files.0,
                with_files.1,
                pairs_view(extra_logs@),
                None,
                phrases,
            );
            &&& r.metadata@ =~= Seq::<(String, String)>::empty()
            &&& r.spec_phrases() =~= phrases
            &&& r.home_dir is None
            &&& strings_view(r.log_paths@) =~= with_extras.0
            &&& pairs_view(r.logs@) =~= with_extras.1
        }),
{
    let ghost files_v = pairs_view(log_files@);
    let mut problem_report = ProblemReport::new(redact_custom_strings);
    let ghost phrases = problem_report.spec_phrases();
    let mut other_logs: Vec<(String, String)> = Vec::new();
    let mut i: usize = 0;
    proof {
        assert(files_v.take(0) =~= Seq::<(Seq<char>, Seq<char>)>::empty());
        assert(spec_filter_logs(Seq::<(Seq<char>, Seq<char>)>::empty(), true) =~= Seq::<
            (Seq<char>, Seq<char>),
        >::empty());
        assert(spec_filter_logs(Seq::<(Seq<char>, Seq<char>)>::empty(), false) =~= Seq::<
            (Seq<char>, Seq<char>),
        >::empty());
        assert(pairs_view(other_logs@) =~= Seq::<(Seq<char>, Seq<char>)>::empty());
    }
    while i < log_files.len()
        invariant
            files_v == pairs_view(log_files@),
            i <= files_v.len(),
            problem_report.metadata@ =~= Seq::<(String, String)>::empty(),
            problem_report.spec_phrases() == phrases,
            problem_report.home_dir is None,
            (strings_view(problem_report.log_paths@), pairs_view(problem_report.logs@))
                == spec_attach_logs(
                Seq::empty(),
                Seq::empty(),
                spec_filter_logs(files_v.take(i as int), true),
                None,
                phrases,
            ),
            pairs_view(other_logs@) == spec_filter_logs(files_v.take(i as int), false),
        decreases log_files.len() - i,
    {
        let path = log_files[i].0.clone();
        let ghost entry = files_v[i as int];
        proof {
            assert(files_v.take(i as int + 1) =~= files_v.take(i as int).push(entry));
            lemma_filter_logs_push(files_v.take(i as int), entry, true);
            lemma_filter_logs_push(files_v.take(i as int), entry, false);
        }
        if is_tunnel_log(path.as_str()) {
            proof {
                let tunnels = spec_filter_logs(files_v.take(i as int), true);
                lemma_attach_logs_concat(
                    Seq::empty(),
                    Seq::empty(),
                    tunnels,
                    seq![entry],
                    None,
                    phrases,
                );
                assert(tunnels + seq![entry] =~= tunnels.push(entry));
            }
            problem_report.add_log_step(path, log_files[i].1.as_str());
        } else {
            let ghost old_others = pairs_view(other_logs@);
            proof {
                let others = spec_filter_logs(files_v.take(i as int), false);
                assert(others + seq![entry] =~= others.push(entry));
            }
            let content = log_files[i].1.clone();
            proof {
                assert(pairs_view(other_logs@.push((log_files@[i as int].0, log_files@[i as int].1)))
                    =~= old_others.push(entry));
            }
            other_logs.push((path, content));
        }
        i = i + 1;
    }
    proof {
        assert(files_v.take(files_v.len() as int) =~= files_v);
    }
    let ghost tunnel_state = spec_attach_logs(
        Seq::empty(),
        Seq::empty(),
        spec_filter_logs(files_v, true),
        None,
        phrases,
    );
    let ghost others_v = spec_filter_logs(files_v, false);
    let mut j: usize = 0;
    proof {
        assert(others_v.take(0) =~= Seq::<(Seq<char>, Seq<char>)>::empty());
    }
    while j < other_logs.len()
        invariant
            pairs_view(other_logs@) == others_v,
            j <= others_v.len(),
            tunnel_state == spec_attach_logs(
                Seq::empty(),
                Seq::empty(),
                spec_filter_logs(files_v, true),
                None,
                phrases,
            ),
            problem_report.metadata@ =~= Seq::<(String, String)>::empty(),
            problem_report.spec_phrases() == phrases,
            problem_report.home_dir is None,
            (strings_view(problem_report.log_paths@), pairs_view(problem_report.logs@))
                == spec_attach_logs(
                tunnel_state.0,
                tunnel_state.1,
                others_v.take(j as int),
                None,
                phrases,
            ),
        decreases other_logs.len() - j,
    {
        let path = other_logs[j].0.clone();
        let ghost entry = others_v[j as int];
        proof {
            assert(others_v.take(j as int + 1) =~= others_v.take(j as int).push(entry));
            lemma_attach_logs_push(
                tunnel_state.0,
                tunnel_state.1,
                others_v.take(j as int),
                entry,
                None,
                phrases,
            );
        }
        problem_report.add_log_step(path, other_logs[j].1.as_str());
        j = j + 1;
    }
    proof {
        assert(others_v.take(others_v.len() as int) =~= others_v);
        lemma_attach_logs_concat(
            Seq::empty(),
            Seq::empty(),
            spec_filter_logs(files_v, true),
            others_v,
            None,
            phrases,
        );
    }
    let ghost files_state = spec_attach_logs(
        Seq::empty(),
        Seq::empty(),
        spec_filter_logs(files_v, true) + others_v,
        None,
        phrases,
    );
    let ghost extras_v = pairs_view(extra_logs@);
    let mut k: usize = 0;
    proof {
        assert(extras_v.take(0) =~= Seq::<(Seq<char>, Seq<char>)>::empty());
    }
    while k < extra_logs.len()
        invariant
            extras_v == pairs_view(extra_logs@),
            k <= extras_v.len(),
            files_state == spec_attach_logs(
                Seq::empty(),
                Seq::empty(),
                spec_filter_logs(files_v, true) + spec_filter_logs(files_v, false),
                None,
                phrases,
            ),
            problem_report.metadata@ =~= Seq::<(String, String)>::empty(),
            problem_report.spec_phrases() == phrases,
            problem_report.home_dir is None,
            (strings_view(problem_report.log_paths@), pairs_view(problem_report.logs@))
                == spec_attach_logs(
                files_state.0,
                files_state.1,
                extras_v.take(k as int),
                None,
                phrases,
            ),
        decreases extra_logs.len() - k,
    {
        let path = extra_logs[k].0.clone();
        let ghost entry = extras_v[k as int];
        proof {
            assert(extras_v.take(k as int + 1) =~= extras_v.take(k as int).push(entry));
            lemma_attach_logs_push(
                files_state.0,
                files_state.1,
                extras_v.take(k as int),
                entry,
                None,
                phrases,
            );
        }
        problem_report.add_log_step(path, extra_logs[k].1.as_str());
        k = k + 1;
    }
    proof {
        assert(extras_v.take(extras_v.len() as int) =~= extras_v);
    }
    problem_report
}

impl ProblemReport {
    /// Attaches several logs to the report, in order.
    pub fn add_logs(&mut self, entries: Vec<(String, String)>)
        ensures
            final(self).metadata == old(self).metadata,
            final(self).redact_custom_strings == old(self).redact_custom_strings,
            final(self).home_dir == old(self).home_dir,
            (strings_view(final(self).log_paths@), pairs_view(final(self).logs@))
                == spec_attach_logs(
                strings_view(old(self).log_paths@),
                pairs_view(old(self).logs@),
                pairs_view(entries@),
                old(self).spec_home(),
                old(self).spec_phrases(),
            ),
    {
        let ghost entries_v = pairs_view(entries@);
        let ghost start_paths = strings_view(self.log_paths@);
        let ghost start_logs = pairs_view(self.logs@);
        let ghost home = self.spec_home();
        let ghost phrases = self.spec_phrases();
        let mut i: usize = 0;
        proof {
            assert(entries_v.take(0) =~= Seq::<(Seq<char>, Seq<char>)>::empty());
        }
        while i < entries.len()
            invariant
                entries_v == pairs_view(entries@),
                i <= entries_v.len(),
                self.metadata == old(self).metadata,
                self.redact_custom_strings == old(self).redact_custom_strings,
                self.home_dir == old(self).home_dir,
                self.spec_home() == home,
                self.spec_phrases() == phrases,
                start_paths == strings_view(old(self).log_paths@),
                start_logs == pairs_view(old(self).logs@),
                (strings_view(self.log_paths@), pairs_view(self.logs@)) == spec_attach_logs(
                    start_paths,
                    start_logs,
                    entries_v.take(i as int),
                    home,
                    phrases,
                ),
            decreases entries.len() - i,
        {
            let path = entries[i].0.clone();
            let ghost entry = entries_v[i as int];
            proof {
                assert(entries_v.take(i as int + 1) =~= entries_v.take(i as int).push(entry));
                lemma_attach_logs_push(
                    start_paths,
                    start_logs,
                    entries_v.take(i as int),
                    entry,
                    home,
                    phrases,
                );
            }
            self.add_log_step(path, entries[i].1.as_str());
            i = i + 1;
        }
        proof {
            assert(entries_v.take(entries_v.len() as int) =~= entries_v);
        }
    }
}

} // verus!
