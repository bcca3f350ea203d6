use vstd::prelude::*;
use crate::errors::AppError;
use crate::json::{obj_str_field, parsed_json, JsonData};
use crate::model::{detail_of_json, opt_view, summary_of_json, LicenseDetail, LicenseSummary};
use crate::registry::{parse_detail, parse_registry, registry_list, summaries_match};
use crate::render::{render_detail, spec_render};
use crate::select::{id_matches, labels_of, select_by_id, spec_label};
use vstd::string::StringExecFns;

verus! {

/// What the command line asked for: an optional exact identifier, an
/// optional output file for the license text, and the full-text flag.
pub struct Config {
    pub spdx_identifier: Option<String>,
    pub output: Option<String>,
    pub full_text: bool,
}

/// The outcome of one outside action, handed back by the caller.
pub enum Event {
    /// The registry fetch: the body text, or a transport error message.
    Registry(Result<String, String>),
    /// The interactive selection: the index of the chosen candidate, or
    /// `None` where the user made no choice.
    Selection(Option<usize>),
    /// The detail fetch: the body text, or a transport error message.
    Detail(Result<String, String>),
    /// The file write: success, or an I/O error message.
    Written(Result<(), String>),
}

/// The next outside action the caller must perform.
pub enum Command {
    /// Fetch the registry document from the given URL.
    FetchRegistry { url: String },
    /// Offer the labels for interactive selection.
    PromptSelection { labels: Vec<String> },
    /// Fetch the detail document from the given URL.
    FetchDetail { url: String },
    /// Write the contents to the given file path.
    WriteFile { path: String, contents: String },
    /// The run succeeded; nothing is left to do.
    Finish,
    /// The run failed with this error; report it and exit non-zero.
    Fail { error: AppError },
}

/// What one step asks of the caller: lines to print, in order, then one
/// command to perform.
pub struct Reaction {
    pub prints: Vec<String>,
    pub command: Command,
}

/// Where the run stands: which event the session awaits next.
pub enum Phase {
    AwaitRegistry,
    AwaitSelection { summaries: Vec<LicenseSummary> },
    AwaitDetail,
    AwaitWrite { path: String },
    Done,
}

/// One lookup run, driven as a state machine: the caller performs each
/// commanded outside action and hands its outcome back as an event.
pub struct Session {
    pub config: Config,
    pub phase: Phase,
}

/// Whether a phase awaits this kind of event.
pub open spec fn accepts(p: Phase, e: Event) -> bool {
    match e {
        Event::Registry(_) => p is AwaitRegistry,
        Event::Selection(_) => p is AwaitSelection,
        Event::Detail(_) => p is AwaitDetail,
        Event::Written(_) => p is AwaitWrite,
    }
}

/// Whether no element of a registry list carries the identifier.
pub open spec fn no_item_match(items: Seq<JsonData>, id: Seq<char>) -> bool {
    forall|i: int| 0 <= i < items.len() ==> obj_str_field(items[i], "licenseId"@) != Some(id)
}

/// The run failed as a failed request carrying this message.
pub open spec fn fails_request(r: Reaction, after: Phase, msg: Seq<char>) -> bool {
    &&& r.prints@.len() == 0
    &&& after is Done
    &&& r.command matches Command::Fail { error } && error matches AppError::RequestFailed(got)
        && got@ == msg
}

/// The run failed as a failed request.
pub open spec fn fails_request_any(r: Reaction, after: Phase) -> bool {
    &&& r.prints@.len() == 0
    &&& after is Done
    &&& r.command matches Command::Fail { error } && error is RequestFailed
}

/// The run failed on malformed license data.
pub open spec fn fails_malformed(r: Reaction, after: Phase) -> bool {
    &&& r.prints@.len() == 0
    &&& after is Done
    &&& r.command matches Command::Fail { error } && error is MalformedLicenseData
}

/// The run failed because no entry carries the identifier.
pub open spec fn fails_not_found(r: Reaction, after: Phase, id: Seq<char>) -> bool {
    &&& r.prints@.len() == 0
    &&& after is Done
    &&& r.command matches Command::Fail { error } && error matches AppError::LicenseNotFound(
        missing,
    ) && missing@ == id
}

/// The run ended as cancelled: the user chose nothing.
pub open spec fn fails_cancelled(r: Reaction, after: Phase) -> bool {
    &&& r.prints@.len() == 0
    &&& after is Done
    &&& r.command matches Command::Fail { error } && error is SelectionCancelled
}

/// Whether the labels are exactly the labels of the summaries, in order.
pub open spec fn labels_match(summaries: Seq<LicenseSummary>, labels: Seq<String>) -> bool {
    &&& labels.len() == summaries.len()
    &&& forall|i: int| 0 <= i < summaries.len() ==> labels[i]@ == spec_label(summaries[i])
}

/// Without an identifier the decoded entries are kept and offered for
/// interactive selection under their labels.
pub open spec fn prompt_outcome(items: Seq<JsonData>, r: Reaction, after: Phase) -> bool {
    &&& r.prints@.len() == 0
    &&& after matches Phase::AwaitSelection { summaries } && ({
        &&& summaries_match(items, summaries@)
        &&& r.command matches Command::PromptSelection { labels } && labels_match(
            summaries@,
            labels@,
        )
    })
}

/// How the session answers one chosen summary: its detail URL is fetched
/// next, after a notice; a summary without a detail URL fails the run as
/// malformed data.
pub open spec fn chosen_outcome(chosen: LicenseSummary, r: Reaction, after: Phase) -> bool {
    match opt_view(chosen.details_url) {
        Some(u) => {
            &&& after is AwaitDetail
            &&& r.command matches Command::FetchDetail { url } && url@ == u
            &&& r.prints@.len() == 1
            &&& r.prints@[0]@ == "Fetching license details..."@
        },
        None => {
            &&& r.prints@.len() == 0
            &&& after is Done
            &&& r.command matches Command::Fail { error } && error is MalformedLicenseData
        },
    }
}

/// How the session answers a registry list when an identifier was given
/// that some element carries: the first such element is the chosen one,
/// and the session moves on as `chosen_outcome` says, going by that
/// element's detail URL.
pub open spec fn first_match_outcome(
    items: Seq<JsonData>,
    id: Seq<char>,
    r: Reaction,
    after: Phase,
) -> bool {
    exists|k: int|
        {
            &&& 0 <= k < items.len()
            &&& #[trigger] obj_str_field(items[k], "licenseId"@) == Some(id)
            &&& forall|n: int| 0 <= n < k ==> obj_str_field(items[n], "licenseId"@) != Some(id)
            &&& match obj_str_field(items[k], "detailsUrl"@) {
                Some(u) => {
                    &&& after is AwaitDetail
                    &&& r.command matches Command::FetchDetail { url } && url@ == u
                    &&& r.prints@.len() == 1
                    &&& r.prints@[0]@ == "Fetching license details..."@
                },
                None => {
                    &&& r.prints@.len() == 0
                    &&& after is Done
                    &&& r.command matches Command::Fail { error } && error is MalformedLicenseData
                },
            }
        }
}

/// How the session answers a detail document that was fetched and parsed:
/// the rendering of some record decoded from it is printed first; then,
/// where an output file was asked for and the document carries a license
/// text, that text is written verbatim; where it carries none, the write is
/// skipped and a notice is printed instead; without an output file the run
/// just finishes.
pub open spec fn detail_outcome(
    j: JsonData,
    config: Config,
    r: Reaction,
    after: Phase,
) -> bool {
    exists|d: LicenseDetail|
        {
            &&& #[trigger] detail_of_json(j, d)
            &&& r.prints@.len() >= 1
            &&& r.prints@[0]@ == spec_render(d, config.full_text)
            &&& match config.output {
                None => after is Done && r.command is Finish && r.prints@.len() == 1,
                Some(path) => match obj_str_field(j, "licenseText"@) {
                    Some(t) => {
                        &&& after matches Phase::AwaitWrite { path: kept } && kept@ == path@
                        &&& r.command matches Command::WriteFile { path: wp, contents }
                            && wp@ == path@ && contents@ == t
                        &&& r.prints@.len() == 1
                    },
                    None => {
                        &&& after is Done
                        &&& r.command is Finish
                        &&& r.prints@.len() == 2
                        &&& r.prints@[1]@ == "License text not available for writing to file"@
                    },
                },
            }
        }
}

/// How the session answers the registry fetch's body: an unparseable body
/// fails as a failed request; a document without a `licenses` array fails
/// as malformed data; with an identifier, the first entry carrying it is
/// chosen, or the run fails as not found; without one, the entries are
/// offered for interactive selection. In every failing case the run is
/// over: no detail fetch is commanded.
pub open spec fn registry_outcome(
    config: Config,
    body: Seq<char>,
    r: Reaction,
    after: Phase,
) -> bool {
    match parsed_json(body) {
        None => fails_request_any(r, after),
        Some(j) => match registry_list(j) {
            None => fails_malformed(r, after),
            Some(items) => match config.spdx_identifier {
                Some(id) => if no_item_match(items, id@) {
                    fails_not_found(r, after, id@)
                } else {
                    first_match_outcome(items, id@, r, after)
                },
                None => prompt_outcome(items, r, after),
            },
        },
    }
}

/// How the session answers an interactive selection: a choice within the
/// candidate list moves on to that candidate's detail fetch; no choice, or
/// one outside the list, ends the run as cancelled.
pub open spec fn selection_outcome(
    summaries: Seq<LicenseSummary>,
    sel: Option<usize>,
    r: Reaction,
    after: Phase,
) -> bool {
    match sel {
        Some(i) => if i < summaries.len() {
            chosen_outcome(summaries[i as int], r, after)
        } else {
            fails_cancelled(r, after)
        },
        None => fails_cancelled(r, after),
    }
}

/// How the whole step relates the old session, the event, the reaction and
/// the new phase: the complete behaviour of `Session::on_event`.
pub open spec fn step_spec(before: Session, event: Event, r: Reaction, after: Phase) -> bool {
    match event {
        Event::Registry(outcome) => match outcome {
            Ok(body) => registry_outcome(before.config, body@, r, after),
            Err(m) => fails_request(r, after, m@),
        },
        Event::Selection(sel) => match before.phase {
            Phase::AwaitSelection { summaries } => selection_outcome(summaries@, sel, r, after),
            _ => false,
        },
        Event::Detail(outcome) => match outcome {
            Ok(body) => match parsed_json(body@) {
                None => fails_request_any(r, after),
                Some(j) => detail_outcome(j, before.config, r, after),
            },
            Err(m) => fails_request(r, after, m@),
        },
        Event::Written(outcome) => match before.phase {
            Phase::AwaitWrite { path } => match outcome {
                Ok(_) => {
                    &&& after is Done
                    &&& r.command is Finish
                    &&& r.prints@.len() == 1
                    &&& r.prints@[0]@ == "License text written to: "@ + path@
                },
                Err(m) => {
                    &&& r.prints@.len() == 0
                    &&& after is Done
                    &&& r.command matches Command::Fail { error }
                        && error matches AppError::FileWriteError(got) && got@ == m@
                },
            },
            _ => false,
        },
    }
}

impl Session {
    /// Starts a run: the first command is always the registry fetch, from
    /// the registry's fixed URL.
    pub fn new(config: Config) -> (r: (Session, Reaction))
        ensures
            r.0.phase is AwaitRegistry,
            r.0.config == config,
            r.1.prints@.len() == 0,
            r.1.command matches Command::FetchRegistry { url }
                && url@ == "https://spdx.org/licenses/licenses.json"@,
    {
        let session = Session { config, phase: Phase::AwaitRegistry };
        let reaction = Reaction {
            prints: Vec::new(),
            command: Command::FetchRegistry {
                url: String::from_str("https://spdx.org/licenses/licenses.json"),
            },
        };
        (session, reaction)
    }

    /// Advances the run by one event.
    ///
    /// A failed fetch, a registry body that is not valid JSON, a registry
    /// document without a `licenses` array, an identifier no entry carries,
    /// a cancelled selection, a chosen entry without a detail URL, and a
    /// failed write each end the run with the matching error, and no
    /// further fetch or write is commanded. A not-found identifier and a
    /// malformed registry in particular fail before any detail fetch.
    pub fn on_event(&mut self, event: Event) -> (r: Reaction)
        requires
            accepts(old(self).phase, event),
        ensures
            final(self).config == old(self).config,
            step_spec(*old(self), event, r, final(self).phase),
    {
        let mut ph = Phase::Done;
        core::mem::swap(&mut ph, &mut self.phase);
        match (ph, event) {
            (Phase::AwaitRegistry, Event::Registry(outcome)) => {
                let body = match outcome {
                    Ok(b) => b,
                    Err(m) => {
                        return self.fail(AppError::RequestFailed(m));
                    },
                };
                let summaries = match parse_registry(body.as_str()) {
                    Ok(s) => s,
                    Err(e) => {
                        return self.fail(e);
                    },
                };
                let ghost items = registry_list(parsed_json(body@)->0)->0;
                let ghost gid = opt_view(self.config.spdx_identifier);
                let chosen = match &self.config.spdx_identifier {
                    Some(id) => {
                        match select_by_id(&summaries, id.as_str()) {
                            Ok(i) => i,
                            Err(e) => {
                                proof {
                                    // no summary matches, so no list element does
                                    assert forall|n: int| 0 <= n < items.len() implies
                                        obj_str_field(items[n], "licenseId"@) != Some(
                                        gid->0,
                                    ) by {
                                        assert(summary_of_json(items[n], summaries@[n]));
                                        assert(!id_matches(summaries@[n], gid->0));
                                    }
                                }
                                return self.fail(e);
                            },
                        }
                    },
                    None => {
                        let labels = labels_of(&summaries);
                        self.phase = Phase::AwaitSelection { summaries };
                        return Reaction {
                            prints: Vec::new(),
                            command: Command::PromptSelection { labels },
                        };
                    },
                };
                let r = self.to_detail(&summaries[chosen]);
                proof {
                    // the chosen summary is the first list element carrying
                    // the identifier, and its detail URL decides the outcome
                    assert(summary_of_json(items[chosen as int], summaries@[chosen as int]));
                    assert(obj_str_field(items[chosen as int], "licenseId"@) == Some(gid->0));
                    assert forall|n: int| 0 <= n < chosen implies obj_str_field(
                        items[n],
                        "licenseId"@,
                    ) != Some(gid->0) by {
                        assert(summary_of_json(items[n], summaries@[n]));
                        assert(!id_matches(summaries@[n], gid->0));
                    }
                    assert(first_match_outcome(items, gid->0, r, self.phase));
                }
                r
            },
            (Phase::AwaitSelection { summaries }, Event::Selection(sel)) => {
                match sel {
                    Some(i) => {
                        if i < summaries.len() {
                            self.to_detail(&summaries[i])
                        } else {
                            self.fail(AppError::SelectionCancelled)
                        }
                    },
                    None => self.fail(AppError::SelectionCancelled),
                }
            },
            (Phase::AwaitDetail, Event::Detail(outcome)) => {
                let body = match outcome {
                    Ok(b) => b,
                    Err(m) => {
                        return self.fail(AppError::RequestFailed(m));
                    },
                };
                let detail = match parse_detail(body.as_str()) {
                    Ok(d) => d,
                    Err(e) => {
                        return self.fail(e);
                    },
                };
                let ghost j = parsed_json(body@)->0;
                let preview = render_detail(&detail, self.config.full_text);
                let mut prints: Vec<String> = Vec::new();
                prints.push(preview);
                let r = match &self.config.output {
                    Some(path) => {
                        match &detail.license_text {
                            Some(text) => {
                                let kept = path.clone();
                                let wp = path.clone();
                                let contents = text.clone();
                                self.phase = Phase::AwaitWrite { path: kept };
                                Reaction {
                                    prints,
                                    command: Command::WriteFile { path: wp, contents },
                                }
                            },
                            None => {
                                prints.push(
                                    String::from_str(
                                        "License text not available for writing to file",
                                    ),
                                );
                                Reaction { prints, command: Command::Finish }
                            },
                        }
                    },
                    None => Reaction { prints, command: Command::Finish },
                };
                proof {
                    // the decoded record witnesses the rendering and the
                    // verbatim text handed to the write
                    assert(detail_of_json(j, detail));
                    assert(detail_outcome(j, self.config, r, self.phase));
                }
                r
            },
            (Phase::AwaitWrite { path }, Event::Written(outcome)) => {
                match outcome {
                    Ok(_) => {
                        let mut line = String::from_str("License text written to: ");
                        line.append(path.as_str());
                        let mut prints: Vec<String> = Vec::new();
                        prints.push(line);
                        Reaction { prints, command: Command::Finish }
                    },
                    Err(m) => self.fail(AppError::FileWriteError(m)),
                }
            },
            _ => {
                // unreachable under the precondition: every phase accepts
                // exactly one kind of event
                self.fail(AppError::MalformedLicenseData)
            },
        }
    }

    /// Ends the run with an error.
    fn fail(&mut self, error: AppError) -> (r: Reaction)
        ensures
            final(self).phase is Done,
            final(self).config == old(self).config,
            r.prints@.len() == 0,
            r.command matches Command::Fail { error: got } && got == error,
    {
        self.phase = Phase::Done;
        Reaction { prints: Vec::new(), command: Command::Fail { error } }
    }

    /// Moves on to the detail fetch for a chosen summary, or fails where
    /// the summary carries no detail URL.
    fn to_detail(&mut self, chosen: &LicenseSummary) -> (r: Reaction)
        ensures
            final(self).config == old(self).config,
            chosen_outcome(*chosen, r, final(self).phase),
    {
        match &chosen.details_url {
            Some(u) => {
                let url = u.clone();
                self.phase = Phase::AwaitDetail;
                let mut prints: Vec<String> = Vec::new();
                prints.push(String::from_str("Fetching license details..."));
                Reaction { prints, command: Command::FetchDetail { url } }
            },
            None => self.fail(AppError::MalformedLicenseData),
        }
    }
}

} // verus!
