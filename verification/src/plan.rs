//! Which passes a run makes: one to catch up, or one per day to reload.

use vstd::prelude::*;
use vstd::string::StringExecFns;
use crate::clock::{millis_in_range, parse_rfc3339, rfc3339_seconds, seconds_of_millis};
use crate::config::{
    ConfigParam, ConfigParamForce, ConfigRechargement, MajFin, DATA_ETAT_SPECIFIQUE,
};
use crate::decimal::{decimal_i32, decimal_u64, parse_i32, parse_u64};
use crate::sync::{abs_seconds, magnitude};
use crate::text::{trim_text, trimmed};

verus! {

/// Number of days walked where none is given.
pub const DEFAULT_DAYS: i32 = 10;

/// Number of pages per day where none is given.
pub const DEFAULT_PAGES_PER_DAY: i32 = 2;

/// Seconds in a day.
pub const DAY_SECONDS: i64 = 86400;

/// What is appended to a calendar date to name its first instant in UTC.
pub const MIDNIGHT_UTC: &'static str = "T00:00:00+00:00";

/// The passes of a run. Dates are in seconds since the Unix epoch.
#[derive(Debug, Clone)]
pub enum ListeDates {
    /// A number of consecutive days from a first day on, with a number of
    /// pages per day.
    DatesContinues(i64, u32, i32),
    /// The given days one by one, with a number of pages per day.
    ListeDates(Vec<i64>, i32),
    /// One pass from the cursor's watermark on, with a number of pages (zero
    /// for no limit).
    DateJusquaFin(i32),
    /// Nothing to do.
    Aucun,
}

/// The mathematical content of a plan.
pub enum Plan {
    DatesContinues(i64, u32, i32),
    ListeDates(Seq<i64>, i32),
    DateJusquaFin(i32),
    Aucun,
}

/// Why no plan could be made.
#[derive(Debug, Clone, Copy, PartialEq, Eq, Structural)]
pub enum PlanError {
    /// A date is neither a number of seconds nor a calendar date; the field
    /// is its position in the list of dates, and zero for a single date.
    InvalidDate(usize),
}

/// The instant that a date text names: the seconds it states where it is a
/// number, and otherwise the first instant in UTC of the calendar date.
pub open spec fn date_of(text: Seq<char>) -> Option<i64> {
    match decimal_u64(text) {
        Some(n) => if n * 1000 <= i64::MAX && millis_in_range((n * 1000) as i64) {
            Some(n as i64)
        } else {
            None
        },
        None => rfc3339_seconds(text + MIDNIGHT_UTC@),
    }
}

/// The number of days to walk under a given number.
pub open spec fn days_or_default(n: i32) -> u32 {
    if n > 0 {
        n as u32
    } else {
        DEFAULT_DAYS as u32
    }
}

/// The number of pages per day under a given number.
pub open spec fn pages_or_default(n: i32) -> i32 {
    if n > 0 {
        n
    } else {
        DEFAULT_PAGES_PER_DAY
    }
}

/// The number that a command-line argument states, zero where it states none.
pub open spec fn argument_number(text: Seq<char>) -> i32 {
    match decimal_i32(text) {
        Some(n) => n,
        None => 0,
    }
}

/// The page limit of a catch-up pass under the configured number of pages.
pub open spec fn catch_up_limit(nb_pages: u32) -> i32 {
    if nb_pages <= i32::MAX {
        nb_pages as i32
    } else {
        i32::MAX
    }
}

/// Whether every text of `dates` before position `n` names an instant.
pub open spec fn all_dates(dates: Seq<Seq<char>>, n: int) -> bool {
    forall|i: int| 0 <= i < n ==> (#[trigger] date_of(dates[i])) is Some
}

/// The plan of a run under a configuration: `planned` with the configured
/// start date taken without the blanks around it.
pub open spec fn planned_for(
    args: Seq<Seq<char>>,
    rechargement: ConfigRechargement,
    fin: MajFin,
) -> Result<Plan, PlanError> {
    planned(
        args,
        trimmed(rechargement.date_debut@),
        rechargement.dates.deep_view(),
        rechargement.nb_jours,
        rechargement.nb_parcourt,
        fin.nb_pages,
    )
}

/// The position of the first text of `dates` that names no instant.
pub open spec fn first_invalid(dates: Seq<Seq<char>>) -> int {
    choose|i: int|
        0 <= i < dates.len() && all_dates(dates, i) && (#[trigger] date_of(dates[i])) is None
}

/// The plan of a run. `args` is the command line, the program's name and the
/// configuration's path first; `debut` is the configured start date without
/// the blanks around it. A date on the command line comes first, then the
/// configured start date, then the configured list, then catching up.
pub open spec fn planned(
    args: Seq<Seq<char>>,
    debut: Seq<char>,
    dates: Seq<Seq<char>>,
    nb_jours: i32,
    nb_parcourt: i32,
    nb_pages: u32,
) -> Result<Plan, PlanError> {
    if args.len() >= 3 {
        match date_of(args[2]) {
            Some(d) => Ok(
                Plan::DatesContinues(
                    d,
                    if args.len() >= 4 {
                        days_or_default(argument_number(args[3]))
                    } else {
                        DEFAULT_DAYS as u32
                    },
                    DEFAULT_PAGES_PER_DAY,
                ),
            ),
            None => Err(PlanError::InvalidDate(0)),
        }
    } else if debut.len() > 0 {
        match date_of(debut) {
            Some(d) => Ok(
                Plan::DatesContinues(d, days_or_default(nb_jours), pages_or_default(nb_parcourt)),
            ),
            None => Err(PlanError::InvalidDate(0)),
        }
    } else if dates.len() > 0 {
        if all_dates(dates, dates.len() as int) {
            Ok(
                Plan::ListeDates(
                    Seq::new(dates.len(), |i: int| date_of(dates[i])->0),
                    pages_or_default(nb_parcourt),
                ),
            )
        } else {
            Err(PlanError::InvalidDate(first_invalid(dates) as usize))
        }
    } else {
        Ok(Plan::DateJusquaFin(catch_up_limit(nb_pages)))
    }
}

/// Number of passes of a plan.
pub open spec fn pass_count(plan: Plan) -> nat {
    match plan {
        Plan::DatesContinues(_, jours, _) => jours as nat,
        Plan::ListeDates(dates, _) => dates.len(),
        Plan::DateJusquaFin(_) => 1,
        Plan::Aucun => 0,
    }
}

/// The directive of pass number `i` of a plan, counted from zero: day `i`
/// after the first day, or date number `i` of the list, forced; or the one
/// pass that catches up, unforced.
pub open spec fn directive_of(plan: Plan, i: nat) -> Option<ConfigParamForce> {
    match plan {
        Plan::DatesContinues(debut, jours, pages) => if i < jours && debut + i * DAY_SECONDS
            <= i64::MAX {
            Some(
                ConfigParamForce {
                    date_opt: Some((debut + i * DAY_SECONDS) as i64),
                    nb_count_max: pages,
                    force: true,
                },
            )
        } else {
            None
        },
        Plan::ListeDates(dates, pages) => if i < dates.len() {
            Some(ConfigParamForce { date_opt: Some(dates[i as int]), nb_count_max: pages, force: true })
        } else {
            None
        },
        Plan::DateJusquaFin(pages) => if i == 0 {
            Some(ConfigParamForce { date_opt: None, nb_count_max: pages, force: false })
        } else {
            None
        },
        Plan::Aucun => None,
    }
}

impl ListeDates {
    /// The content of the plan.
    pub open spec fn content(&self) -> Plan {
        match *self {
            ListeDates::DatesContinues(d, j, p) => Plan::DatesContinues(d, j, p),
            ListeDates::ListeDates(dates, p) => Plan::ListeDates(dates@, p),
            ListeDates::DateJusquaFin(p) => Plan::DateJusquaFin(p),
            ListeDates::Aucun => Plan::Aucun,
        }
    }

    /// Number of passes of the plan.
    pub fn nb_passes(&self) -> (n: u64)
        ensures
            n == pass_count(self.content()),
    {
        match self {
            ListeDates::DatesContinues(_, jours, _) => *jours as u64,
            ListeDates::ListeDates(dates, _) => dates.len() as u64,
            ListeDates::DateJusquaFin(_) => 1,
            ListeDates::Aucun => 0,
        }
    }

    /// The directive of pass number `i`, counted from zero.
    pub fn directive(&self, i: u64) -> (r: Option<ConfigParamForce>)
        ensures
            r == directive_of(self.content(), i as nat),
    {
        match self {
            ListeDates::DatesContinues(debut, jours, pages) => {
                if i < *jours as u64 {
                    let shift: i64 = (i as i64) * DAY_SECONDS;
                    match debut.checked_add(shift) {
                        Some(date) => Some(
                            ConfigParamForce {
                                date_opt: Some(date),
                                nb_count_max: *pages,
                                force: true,
                            },
                        ),
                        None => None,
                    }
                } else {
                    None
                }
            },
            ListeDates::ListeDates(dates, pages) => {
                if i < dates.len() as u64 {
                    Some(
                        ConfigParamForce {
                            date_opt: Some(dates[i as usize]),
                            nb_count_max: *pages,
                            force: true,
                        },
                    )
                } else {
                    None
                }
            },
            ListeDates::DateJusquaFin(pages) => {
                if i == 0 {
                    Some(ConfigParamForce { date_opt: None, nb_count_max: *pages, force: false })
                } else {
                    None
                }
            },
            ListeDates::Aucun => None,
        }
    }
}

/// Reads a date: a number of seconds since the Unix epoch, or a calendar
/// date, which stands for its first instant in UTC.
pub fn parse_date(text: &str) -> (r: Option<i64>)
    ensures
        r == date_of(text@),
{
    match parse_u64(text) {
        Some(n) => {
            if n > 9_223_372_036_854_775 {
                return None;
            }
            let millis: i64 = (n * 1000) as i64;
            match seconds_of_millis(millis) {
                Some(s) => Some(s),
                None => None,
            }
        },
        None => {
            let stamped = String::from_str(text).concat(MIDNIGHT_UTC);
            parse_rfc3339(stamped.as_str())
        },
    }
}

/// Makes the plan of a run from the command line and the configuration,
/// where `debut` is the configured start date without the blanks around it.
pub fn plan_dates(
    args: &Vec<String>,
    debut: &str,
    rechargement: &ConfigRechargement,
    fin: &MajFin,
) -> (r: Result<ListeDates, PlanError>)
    ensures
        match r {
            Ok(plan) => planned(
                args.deep_view(),
                debut@,
                rechargement.dates.deep_view(),
                rechargement.nb_jours,
                rechargement.nb_parcourt,
                fin.nb_pages,
            ) == Ok::<Plan, PlanError>(plan.content()),
            Err(e) => planned(
                args.deep_view(),
                debut@,
                rechargement.dates.deep_view(),
                rechargement.nb_jours,
                rechargement.nb_parcourt,
                fin.nb_pages,
            ) == Err::<Plan, PlanError>(e),
        },
{
    if args.len() >= 3 {
        assert(args.deep_view()[2] == args[2]@);
        match parse_date(args[2].as_str()) {
            Some(date) => {
                let mut max_jours: i32 = DEFAULT_DAYS;
                if args.len() >= 4 {
                    assert(args.deep_view()[3] == args[3]@);
                    let nb: i32 = match parse_i32(args[3].as_str()) {
                        Some(n) => n,
                        None => 0,
                    };
                    if nb > 0 {
                        max_jours = nb;
                    }
                }
                Ok(ListeDates::DatesContinues(date, max_jours as u32, DEFAULT_PAGES_PER_DAY))
            },
            None => Err(PlanError::InvalidDate(0)),
        }
    } else if !debut.is_empty() {
        match parse_date(debut) {
            Some(date) => {
                let max_jours: i32 = if rechargement.nb_jours > 0 {
                    rechargement.nb_jours
                } else {
                    DEFAULT_DAYS
                };
                let nb_count_max: i32 = if rechargement.nb_parcourt > 0 {
                    rechargement.nb_parcourt
                } else {
                    DEFAULT_PAGES_PER_DAY
                };
                Ok(ListeDates::DatesContinues(date, max_jours as u32, nb_count_max))
            },
            None => Err(PlanError::InvalidDate(0)),
        }
    } else if rechargement.dates.len() > 0 {
        let ghost texts = rechargement.dates.deep_view();
        let n: usize = rechargement.dates.len();
        let mut liste_dates: Vec<i64> = Vec::new();
        let mut i: usize = 0;
        while i < n
            invariant
                0 <= i <= n,
                0 < n,
                args.len() < 3,
                debut@.len() == 0,
                n == rechargement.dates.len(),
                texts == rechargement.dates.deep_view(),
                all_dates(texts, i as int),
                liste_dates@.len() == i,
                forall|j: int| 0 <= j < i ==> liste_dates@[j] == (#[trigger] date_of(texts[j]))->0,
            decreases n - i,
        {
            assert(texts[i as int] == rechargement.dates[i as int]@);
            match parse_date(rechargement.dates[i].as_str()) {
                Some(date) => {
                    liste_dates.push(date);
                },
                None => {
                    proof {
                        lemma_first_invalid(texts, i as int);
                    }
                    return Err(PlanError::InvalidDate(i));
                },
            }
            i = i + 1;
        }
        let nb_count_max: i32 = if rechargement.nb_parcourt > 0 {
            rechargement.nb_parcourt
        } else {
            DEFAULT_PAGES_PER_DAY
        };
        assert(liste_dates@ == Seq::new(texts.len(), |i: int| date_of(texts[i])->0));
        Ok(ListeDates::ListeDates(liste_dates, nb_count_max))
    } else {
        let pages: i32 = if fin.nb_pages <= 0x7fff_ffff {
            fin.nb_pages as i32
        } else {
            i32::MAX
        };
        Ok(ListeDates::DateJusquaFin(pages))
    }
}

/// Makes the plan of a run from the command line and the configuration.
pub fn plan(args: &Vec<String>, rechargement: &ConfigRechargement, fin: &MajFin) -> (r: Result<
    ListeDates,
    PlanError,
>)
    ensures
        match r {
            Ok(p) => planned_for(args.deep_view(), *rechargement, *fin) == Ok::<Plan, PlanError>(
                p.content(),
            ),
            Err(e) => planned_for(args.deep_view(), *rechargement, *fin) == Err::<Plan, PlanError>(
                e,
            ),
        },
{
    plan_dates(args, trim_text(rechargement.date_debut.as_str()), rechargement, fin)
}

/// The first text that names no instant is the only position at which
/// every text before names one and the text itself names none.
proof fn lemma_first_invalid(dates: Seq<Seq<char>>, i: int)
    requires
        0 <= i < dates.len(),
        all_dates(dates, i),
        date_of(dates[i]) is None,
    ensures
        !all_dates(dates, dates.len() as int),
        i == first_invalid(dates),
{
    let k = first_invalid(dates);
    if k < i {
        assert(date_of(dates[k]) is Some);
    } else if i < k {
        assert(date_of(dates[i]) is Some);
    }
}

/// The cursor under which a pass runs: for a forced pass the cursor set to
/// the state `specifique`, the offset zero and the directive's date; for any
/// other pass the cursor as it is.
pub fn cursor_for(cursor: &ConfigParam, directive: &ConfigParamForce) -> (c: ConfigParam)
    ensures
        directive.force && directive.date_opt is Some ==> c.etat@ == DATA_ETAT_SPECIFIQUE@
            && c.offset == 0 && c.date_dernier_traiment == magnitude(directive.date_opt->0),
        !(directive.force && directive.date_opt is Some) ==> c == *cursor,
{
    match directive.date_opt {
        Some(date) if directive.force => ConfigParam {
            date_dernier_traiment: abs_seconds(date),
            offset: 0,
            etat: String::from_str(DATA_ETAT_SPECIFIQUE),
        },
        _ => cursor.copy(),
    }
}

} // verus!
