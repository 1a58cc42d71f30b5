//! One synchronisation pass: the state it keeps and what each reply does to it.

use vstd::prelude::*;
use crate::clock::now_millis;
use crate::config::{
    same_text, Config2, ConfigParam, ConfigParamForce, DATA_ETAT_INITIALISATION,
    DATA_ETAT_SPECIFIQUE,
};
use crate::guard::{check_timestamp, timestamp_valid};
use crate::json::{key_order, members, object_len};
use crate::merge::{merge, merge_stats, merged, MergeStats};
use crate::page::{build_parameters, FetchFailure, PageOutcome, Parameters};
use crate::store::{init_store, Store};

verus! {

/// Number of pages between two checkpoints where the configuration gives none.
pub const DEFAULT_SAVE_INTERVAL: u64 = 10;

/// Why a pass cannot go on.
#[derive(Debug, Clone, Copy, PartialEq, Eq, Structural)]
pub enum SyncError {
    /// A watermark lies outside the accepted window.
    InvalidTimestamp(u64),
    /// The pass is forced and was given no watermark.
    MissingDate,
    /// The cursor holds an offset below zero.
    NegativeOffset(i64),
    /// The offset would no longer fit in the cursor.
    OffsetOverflow,
}

/// Why a pass ended.
#[derive(Debug, Clone, Copy, PartialEq, Eq, Structural)]
pub enum Fin {
    /// The server has nothing more under the current watermark.
    EndOfEpoch,
    /// The pass has fetched as many pages as it was allowed.
    PageLimit,
    /// A request failed.
    Failure(FetchFailure),
    /// A page held more items than can be counted.
    Oversized,
}

/// What to do after a reply has been taken in.
#[derive(Debug, Clone, Copy, PartialEq, Eq, Structural)]
pub enum Suite {
    /// Write a checkpoint if `checkpoint` says so, wait `pause_ms`
    /// milliseconds, then send the next request.
    Continue { checkpoint: bool, pause_ms: u64 },
    /// Write the final checkpoint and stop.
    Stop(Fin),
}

/// State of a pass.
#[derive(Debug)]
pub struct Pass {
    pub store: Store,
    pub cursor: ConfigParam,
    pub force: ConfigParamForce,
    /// Whether the store is being filled for the first time, without watermark.
    pub initialisation: bool,
    /// Watermark sent with each request, unless `initialisation`.
    pub since: u64,
    /// Offset of the next page.
    pub offset: u64,
    /// Last watermark that the server reported, zero while there is none.
    pub dernier_since: u64,
    /// Pages merged so far.
    pub count: u64,
    pub total_ajout: u64,
    pub total_modifie: u64,
    /// Statistics of the page merged last, if any was.
    pub derniere_page: Option<MergeStats>,
    /// Largest number of pages, zero for no limit.
    pub nb_appel_max: u64,
    /// Number of pages between two checkpoints.
    pub nb_sauvegarde: u64,
    /// Pause after each page, in milliseconds.
    pub temporisation: u64,
}

/// The magnitude of a date given in seconds since the Unix epoch.
pub open spec fn magnitude(date: i64) -> u64 {
    if date >= 0 {
        date as u64
    } else {
        (-date) as u64
    }
}

/// Number of pages between two checkpoints under a configured interval.
pub open spec fn save_interval(sauvegarde: u64) -> u64 {
    if sauvegarde > 0 {
        sauvegarde
    } else {
        DEFAULT_SAVE_INTERVAL
    }
}

/// Largest number of pages under a directive, zero for no limit.
pub open spec fn page_limit(force: ConfigParamForce) -> u64 {
    if force.nb_count_max > 0 {
        force.nb_count_max as u64
    } else {
        0
    }
}

/// Whether a pass that finds no store, or this cursor, fills the store for
/// the first time.
pub open spec fn starts_initialisation(store_present: bool, cursor: ConfigParam) -> bool {
    !store_present || cursor.in_state(DATA_ETAT_INITIALISATION)
}

/// The error that keeps a pass from starting, if there is one.
pub open spec fn start_error(store_present: bool, cursor: ConfigParam, force: ConfigParamForce)
    -> Option<SyncError> {
    if starts_initialisation(store_present, cursor) {
        None
    } else if force.force {
        match force.date_opt {
            None => Some(SyncError::MissingDate),
            Some(d) => if timestamp_valid(magnitude(d)) {
                None
            } else {
                Some(SyncError::InvalidTimestamp(magnitude(d)))
            },
        }
    } else if cursor.offset < 0 {
        Some(SyncError::NegativeOffset(cursor.offset))
    } else if timestamp_valid(cursor.date_dernier_traiment) {
        None
    } else {
        Some(SyncError::InvalidTimestamp(cursor.date_dernier_traiment))
    }
}

impl Pass {
    /// What holds of every pass between two replies.
    pub open spec fn wf(&self) -> bool {
        &&& self.nb_sauvegarde > 0
        &&& self.offset <= i64::MAX
        &&& self.count <= self.offset
        &&& self.total_ajout + self.total_modifie <= self.offset
        &&& !self.initialisation ==> timestamp_valid(self.since)
    }

    /// Whether `self` runs under the same directive and settings as `other`.
    pub open spec fn same_settings(&self, other: &Pass) -> bool {
        &&& self.force == other.force
        &&& self.initialisation == other.initialisation
        &&& self.since == other.since
        &&& self.nb_appel_max == other.nb_appel_max
        &&& self.nb_sauvegarde == other.nb_sauvegarde
        &&& self.temporisation == other.temporisation
    }

    /// Whether `self` is the state in which a pass starts, given the store
    /// that was read (none where the data file was absent), the cursor and
    /// the directive. A pass that finds no store, or whose cursor is in the
    /// state `initialisation`, sends no watermark and starts at offset zero;
    /// a forced pass sends its own watermark, starts at offset zero and puts
    /// the cursor into the state `specifique`; any other pass resumes from
    /// the cursor.
    pub open spec fn started_from(
        &self,
        config: &Config2,
        force: ConfigParamForce,
        store: Option<Store>,
        cursor: ConfigParam,
    ) -> bool {
        let init = starts_initialisation(store is Some, cursor);
        &&& match store {
            Some(s) => self.store == s,
            None => self.store.items() == crate::json::no_members() && self.store.etat@
                == DATA_ETAT_INITIALISATION@ && self.store.offset == 0 && self.store.date == 0,
        }
        &&& self.force == force
        &&& self.initialisation == init
        &&& self.cursor.date_dernier_traiment == cursor.date_dernier_traiment
        &&& self.cursor.offset == cursor.offset
        &&& self.cursor.etat@ == if !init && force.force {
            DATA_ETAT_SPECIFIQUE@
        } else {
            cursor.etat@
        }
        &&& self.offset == if init || force.force {
            0
        } else {
            cursor.offset as u64
        }
        &&& self.since == if init {
            0
        } else if force.force {
            magnitude(force.date_opt->0)
        } else {
            cursor.date_dernier_traiment
        }
        &&& self.dernier_since == 0
        &&& self.count == 0
        &&& self.total_ajout == 0
        &&& self.total_modifie == 0
        &&& self.derniere_page is None
        &&& self.nb_appel_max == page_limit(force)
        &&& self.nb_sauvegarde == save_interval(config.sauvegarde)
        &&& self.temporisation == config.temporisation
    }

    /// The watermark that the next request carries.
    pub open spec fn request_since(&self) -> Option<u64> {
        if self.initialisation {
            None
        } else {
            Some(self.since)
        }
    }

    /// What follows a merged page when `count` pages have been merged.
    pub open spec fn after_page(&self, count: u64) -> Suite {
        if self.nb_appel_max > 0 && count >= self.nb_appel_max {
            Suite::Stop(Fin::PageLimit)
        } else {
            Suite::Continue {
                checkpoint: count % self.nb_sauvegarde == 0,
                pause_ms: self.temporisation,
            }
        }
    }

    /// Whether `self` is `before` after the page `page` with the reported
    /// watermark `since` has been merged.
    pub open spec fn merged_page(
        &self,
        before: &Pass,
        page: serde_json::Map<String, serde_json::Value>,
        since: i64,
    ) -> bool {
        let stats = merge_stats(before.store.items(), key_order(page), members(page));
        &&& self.same_settings(before)
        &&& self.store.items() == merged(before.store.items(), members(page))
        &&& self.store.same_header(&before.store)
        &&& self.offset == before.offset + members(page).len()
        &&& self.count == before.count + 1
        &&& self.total_ajout == before.total_ajout + stats.added
        &&& self.total_modifie == before.total_modifie + stats.replaced
        &&& self.derniere_page == Some(stats)
        &&& self.dernier_since == if since > 0 {
            since as u64
        } else {
            before.dernier_since
        }
        &&& self.cursor.date_dernier_traiment == before.cursor.date_dernier_traiment
        &&& self.cursor.etat == before.cursor.etat
        &&& self.cursor.offset == if before.cursor.in_state(DATA_ETAT_SPECIFIQUE) {
            self.offset as i64
        } else {
            before.cursor.offset
        }
    }

    /// Whether `self` is `before` after the epoch has ended with a watermark
    /// to commit, at the time `now`.
    pub open spec fn committed(&self, before: &Pass, now: u64) -> bool {
        &&& self.same_settings(before)
        &&& self.store == before.store
        &&& self.offset == before.offset
        &&& self.count == before.count
        &&& self.total_ajout == before.total_ajout
        &&& self.total_modifie == before.total_modifie
        &&& self.derniere_page == before.derniere_page
        &&& self.dernier_since == before.dernier_since
        &&& self.cursor.etat == before.cursor.etat
        &&& self.cursor.offset == 0
        &&& self.cursor.date_dernier_traiment == if before.force.force {
            before.dernier_since
        } else {
            now
        }
    }

    /// The error that keeps the end of an epoch from being taken in at the
    /// time `now`, if there is one.
    pub open spec fn end_error(&self, now: u64) -> Option<SyncError> {
        if self.dernier_since == 0 {
            None
        } else if !timestamp_valid(self.dernier_since) {
            Some(SyncError::InvalidTimestamp(self.dernier_since))
        } else if !self.force.force && !timestamp_valid(now) {
            Some(SyncError::InvalidTimestamp(now))
        } else {
            None
        }
    }

    /// Whether taking in `outcome` at the time `now` leads from `before` to
    /// `self` with the result `r`.
    pub open spec fn stepped(
        &self,
        before: &Pass,
        outcome: PageOutcome,
        now: u64,
        r: Result<Suite, SyncError>,
    ) -> bool {
        match outcome {
            PageOutcome::Failure(f) => *self == *before && r == Ok::<Suite, SyncError>(
                Suite::Stop(Fin::Failure(f)),
            ),
            PageOutcome::Items(page, since) if members(page).len() > 0 => {
                if members(page).len() > i32::MAX {
                    *self == *before && r == Ok::<Suite, SyncError>(Suite::Stop(Fin::Oversized))
                } else if before.offset + members(page).len() > i64::MAX {
                    *self == *before && r == Err::<Suite, SyncError>(SyncError::OffsetOverflow)
                } else {
                    self.merged_page(before, page, since) && r == Ok::<Suite, SyncError>(
                        before.after_page(self.count),
                    )
                }
            },
            _ => match before.end_error(now) {
                Some(e) => *self == *before && r == Err::<Suite, SyncError>(e),
                None => r == Ok::<Suite, SyncError>(Suite::Stop(Fin::EndOfEpoch)) && if
                    before.dernier_since > 0 {
                    self.committed(before, now)
                } else {
                    *self == *before
                },
            },
        }
    }
}

/// Starts a pass: decides whether it fills the store for the first time,
/// which watermark its requests carry and at which offset it resumes.
pub fn begin_pass(
    config: &Config2,
    force: ConfigParamForce,
    store: Option<Store>,
    cursor: ConfigParam,
) -> (r: Result<Pass, SyncError>)
    ensures
        match r {
            Ok(pass) => start_error(store is Some, cursor, force) is None && pass.started_from(
                config,
                force,
                store,
                cursor,
            ) && pass.wf(),
            Err(e) => start_error(store is Some, cursor, force) == Some(e),
        },
{
    let present = store.is_some();
    let initialisation = !present || same_text(cursor.etat.as_str(), DATA_ETAT_INITIALISATION);
    let mut offset: u64 = 0;
    let mut since: u64 = 0;
    let mut cursor = cursor;
    if !initialisation {
        if force.force {
            match force.date_opt {
                None => {
                    return Err(SyncError::MissingDate);
                },
                Some(d) => {
                    since = abs_seconds(d);
                },
            }
            if check_timestamp(&since).is_err() {
                return Err(SyncError::InvalidTimestamp(since));
            }
            cursor.etat = String::from_str(DATA_ETAT_SPECIFIQUE);
        } else {
            if cursor.offset < 0 {
                return Err(SyncError::NegativeOffset(cursor.offset));
            }
            since = cursor.date_dernier_traiment;
            if check_timestamp(&since).is_err() {
                return Err(SyncError::InvalidTimestamp(since));
            }
            offset = cursor.offset as u64;
        }
    }
    let nb_appel_max: u64 = if force.nb_count_max > 0 {
        force.nb_count_max as u64
    } else {
        0
    };
    let nb_sauvegarde: u64 = if config.sauvegarde > 0 {
        config.sauvegarde
    } else {
        DEFAULT_SAVE_INTERVAL
    };
    Ok(
        Pass {
            store: init_store(store),
            cursor,
            force,
            initialisation,
            since,
            offset,
            dernier_since: 0,
            count: 0,
            total_ajout: 0,
            total_modifie: 0,
            derniere_page: None,
            nb_appel_max,
            nb_sauvegarde,
            temporisation: config.temporisation,
        },
    )
}

/// The magnitude of a date.
pub fn abs_seconds(date: i64) -> (r: u64)
    ensures
        r == magnitude(date),
{
    if date >= 0 {
        date as u64
    } else if date == i64::MIN {
        0x8000_0000_0000_0000
    } else {
        (-date) as u64
    }
}

/// The seconds since the Unix epoch of a clock reading in milliseconds, and
/// zero for a reading before the epoch.
pub open spec fn clock_seconds(millis: i64) -> u64 {
    if millis >= 0 {
        (millis / 1000) as u64
    } else {
        0
    }
}

/// Converts a clock reading in milliseconds to seconds.
pub fn seconds_of_clock(millis: i64) -> (r: u64)
    ensures
        r == clock_seconds(millis),
{
    if millis >= 0 {
        (millis / 1000) as u64
    } else {
        0
    }
}

impl Pass {
    /// Tests what holds of every pass between two replies.
    pub fn check_wf(&self) -> (ok: bool)
        ensures
            ok == self.wf(),
    {
        self.nb_sauvegarde > 0 && self.offset <= 0x7fff_ffff_ffff_ffff && self.count <= self.offset
            && self.total_ajout <= self.offset && self.total_modifie <= self.offset
            - self.total_ajout && (self.initialisation || check_timestamp(&self.since).is_ok())
    }

    /// The request for the next page.
    pub fn next_request(&self, config: &Config2) -> (p: Parameters)
        ensures
            p.consumer_key@ == config.consumer_key@,
            p.access_token@ == config.access_token@,
            p.detail_type@ == "simple"@,
            p.count == crate::page::PAGE_COUNT,
            p.total == 1,
            p.sort@ == "oldest"@,
            p.offset == self.offset,
            p.since == self.request_since(),
    {
        let since = if self.initialisation {
            None
        } else {
            Some(self.since)
        };
        build_parameters(
            config.consumer_key.as_str(),
            config.access_token.as_str(),
            self.offset,
            since,
        )
    }

    /// Takes in a classified reply at the time `now`, in seconds since the
    /// Unix epoch. A page is merged and the offset advanced by its size; the
    /// end of the epoch commits the watermark and sets the cursor's offset
    /// back to zero; a failure leaves everything as it is.
    pub fn on_page_at(&mut self, outcome: PageOutcome, now: u64) -> (r: Result<Suite, SyncError>)
        requires
            old(self).wf(),
        ensures
            final(self).wf(),
            final(self).stepped(old(self), outcome, now, r),
    {
        match &outcome {
            PageOutcome::Failure(f) => Ok(Suite::Stop(Fin::Failure(*f))),
            PageOutcome::Items(page, since) => {
                let len: usize = object_len(page);
                if len == 0 {
                    self.end_of_epoch(now)
                } else if len > 0x7fff_ffff {
                    Ok(Suite::Stop(Fin::Oversized))
                } else if len as u64 > 0x7fff_ffff_ffff_ffff - self.offset {
                    Err(SyncError::OffsetOverflow)
                } else {
                    let stats = merge(&mut self.store, page);
                    self.offset = self.offset + len as u64;
                    self.total_ajout = self.total_ajout + stats.added;
                    self.total_modifie = self.total_modifie + stats.replaced;
                    self.derniere_page = Some(stats);
                    if same_text(self.cursor.etat.as_str(), DATA_ETAT_SPECIFIQUE) {
                        self.cursor.offset = self.offset as i64;
                    }
                    if *since > 0 {
                        self.dernier_since = *since as u64;
                    }
                    self.count = self.count + 1;
                    if self.nb_appel_max > 0 && self.count >= self.nb_appel_max {
                        Ok(Suite::Stop(Fin::PageLimit))
                    } else {
                        Ok(
                            Suite::Continue {
                                checkpoint: self.count % self.nb_sauvegarde == 0,
                                pause_ms: self.temporisation,
                            },
                        )
                    }
                }
            },
            PageOutcome::End => self.end_of_epoch(now),
        }
    }

    /// Takes in the end of the epoch at the time `now`.
    fn end_of_epoch(&mut self, now: u64) -> (r: Result<Suite, SyncError>)
        requires
            old(self).wf(),
        ensures
            final(self).wf(),
            match old(self).end_error(now) {
                Some(e) => *final(self) == *old(self) && r == Err::<Suite, SyncError>(e),
                None => r == Ok::<Suite, SyncError>(Suite::Stop(Fin::EndOfEpoch)) && if old(
                    self,
                ).dernier_since > 0 {
                    final(self).committed(old(self), now)
                } else {
                    *final(self) == *old(self)
                },
            },
    {
        if self.dernier_since > 0 {
            if check_timestamp(&self.dernier_since).is_err() {
                return Err(SyncError::InvalidTimestamp(self.dernier_since));
            }
            if !self.force.force {
                if check_timestamp(&now).is_err() {
                    return Err(SyncError::InvalidTimestamp(now));
                }
                self.cursor.offset = 0;
                self.cursor.date_dernier_traiment = now;
            } else {
                self.cursor.offset = 0;
                self.cursor.date_dernier_traiment = self.dernier_since;
            }
        }
        Ok(Suite::Stop(Fin::EndOfEpoch))
    }

    /// Takes in a classified reply at the time that the clock shows. What
    /// comes of it is what `on_page_at` does at some time.
    pub fn on_page(&mut self, outcome: PageOutcome) -> (r: Result<Suite, SyncError>)
        requires
            old(self).wf(),
        ensures
            final(self).wf(),
            exists|now: u64| final(self).stepped(old(self), outcome, now, r),
    {
        let now = seconds_of_clock(now_millis());
        self.on_page_at(outcome, now)
    }
}

/// Within a pass, merging a page advances the offset by the number of items
/// of the page.
pub proof fn lemma_offset_advances(
    before: Pass,
    after: Pass,
    page: serde_json::Map<String, serde_json::Value>,
    since: i64,
    now: u64,
    r: Result<Suite, SyncError>,
)
    requires
        after.stepped(&before, PageOutcome::Items(page, since), now, r),
        0 < members(page).len() <= i32::MAX,
        r is Ok,
    ensures
        after.offset == before.offset + members(page).len(),
        after.store.items() == merged(before.store.items(), members(page)),
{
}

/// When the epoch ends and a watermark is committed, the cursor's offset is
/// zero afterwards; a forced pass commits the watermark that the server
/// reported last, and an unforced pass commits the time of the clock.
pub proof fn lemma_commit_resets_offset(
    before: Pass,
    after: Pass,
    now: u64,
    r: Result<Suite, SyncError>,
)
    requires
        after.stepped(&before, PageOutcome::End, now, r),
        before.dernier_since > 0,
        r is Ok,
    ensures
        after.cursor.offset == 0,
        before.force.force ==> after.cursor.date_dernier_traiment == before.dernier_since,
        !before.force.force ==> after.cursor.date_dernier_traiment == now,
        timestamp_valid(after.cursor.date_dernier_traiment),
{
}

/// A failed request changes neither the store nor the cursor.
pub proof fn lemma_failure_changes_nothing(
    before: Pass,
    after: Pass,
    failure: FetchFailure,
    now: u64,
    r: Result<Suite, SyncError>,
)
    requires
        after.stepped(&before, PageOutcome::Failure(failure), now, r),
    ensures
        after == before,
        r == Ok::<Suite, SyncError>(Suite::Stop(Fin::Failure(failure))),
{
}

/// Whether the state is written to disk after this step.
pub open spec fn writes_checkpoint(suite: Suite) -> bool {
    match suite {
        Suite::Continue { checkpoint, .. } => checkpoint,
        Suite::Stop(_) => true,
    }
}

/// After every page whose number is a multiple of the save interval, the
/// state is written to disk: as a checkpoint, or as the final checkpoint
/// where the pass stops there.
pub proof fn lemma_checkpoint_every_interval(
    before: Pass,
    after: Pass,
    page: serde_json::Map<String, serde_json::Value>,
    since: i64,
    now: u64,
    suite: Suite,
)
    requires
        before.wf(),
        after.stepped(
            &before,
            PageOutcome::Items(page, since),
            now,
            Ok::<Suite, SyncError>(suite),
        ),
        0 < members(page).len() <= i32::MAX,
        after.count % before.nb_sauvegarde == 0,
    ensures
        writes_checkpoint(suite),
        after.count == before.count + 1,
{
}

/// No step of a pass drops an item: every id that the store held before a
/// reply was taken in, it holds afterwards.
pub proof fn lemma_step_keeps_items(
    before: Pass,
    after: Pass,
    outcome: PageOutcome,
    now: u64,
    r: Result<Suite, SyncError>,
)
    requires
        after.stepped(&before, outcome, now, r),
    ensures
        before.store.items().dom().subset_of(after.store.items().dom()),
        after.store.same_header(&before.store),
{
}

} // verus!
