//! Configuration of a run and the position from which it resumes.

use vstd::prelude::*;

verus! {

/// Lifecycle state of a store that is being filled for the first time.
pub const DATA_ETAT_INITIALISATION: &'static str = "initialisation";

/// Lifecycle state of a store that follows the remote list.
pub const DATA_ETAT_MISE_A_JOUR: &'static str = "miseAJour";

/// Lifecycle state of a store that is being reloaded for a chosen date.
pub const DATA_ETAT_SPECIFIQUE: &'static str = "specifique";

/// Settings of a run.
#[derive(Debug, Clone)]
pub struct Config2 {
    /// Address of the retrieve endpoint.
    pub url: String,
    pub consumer_key: String,
    pub access_token: String,
    /// Directory that holds the data file, the cursor file and the backups.
    pub repertoire: String,
    /// Pause after each page, in milliseconds; zero for none.
    pub temporisation: u64,
    /// Path of the logging configuration.
    pub config_log: String,
    /// Number of pages between two checkpoints; zero for the default.
    pub sauvegarde: u64,
    pub rechargement: ConfigRechargement,
    pub mise_a_jour_jusqua_fin: MajFin,
}

/// Settings of a reload: one start date or a list of dates.
#[derive(Debug, Clone)]
pub struct ConfigRechargement {
    /// First day of a run of consecutive days; blank for none.
    pub date_debut: String,
    /// Days to reload one by one.
    pub dates: Vec<String>,
    /// Number of consecutive days; zero or less for the default.
    pub nb_jours: i32,
    /// Number of pages per day; zero or less for the default.
    pub nb_parcourt: i32,
}

/// Settings of a catch-up run.
#[derive(Debug, Clone, Copy, PartialEq, Eq, Structural)]
pub struct MajFin {
    /// Largest number of pages to fetch; zero for no limit.
    pub nb_pages: u32,
}

/// The cursor: where the next run resumes.
#[derive(Debug, Clone)]
pub struct ConfigParam {
    /// Last confirmed watermark, in seconds since the Unix epoch.
    pub date_dernier_traiment: u64,
    /// Number of items already walked under that watermark.
    pub offset: i64,
    /// Lifecycle state.
    pub etat: String,
}

/// What one pass is told to do instead of following the cursor.
#[derive(Debug, Clone, Copy, PartialEq, Eq, Structural)]
pub struct ConfigParamForce {
    /// Watermark to use, in seconds since the Unix epoch.
    pub date_opt: Option<i64>,
    /// Largest number of pages to fetch; zero or less for no limit.
    pub nb_count_max: i32,
    /// Whether the pass overrides the cursor's watermark.
    pub force: bool,
}

impl ConfigParam {
    /// Whether the cursor is in the state named `etat`.
    pub open spec fn in_state(&self, etat: &str) -> bool {
        self.etat@ == etat@
    }

    /// A copy of the cursor.
    pub fn copy(&self) -> (c: ConfigParam)
        ensures
            c == *self,
    {
        ConfigParam {
            date_dernier_traiment: self.date_dernier_traiment,
            offset: self.offset,
            etat: self.etat.clone(),
        }
    }
}

impl Default for ConfigParam {
    fn default() -> (c: ConfigParam)
        ensures
            c.date_dernier_traiment == 0,
            c.offset == 0,
            c.etat@ == Seq::<char>::empty(),
    {
        ConfigParam { date_dernier_traiment: 0, offset: 0, etat: String::new() }
    }
}

impl Default for ConfigParamForce {
    fn default() -> (f: ConfigParamForce)
        ensures
            f == (ConfigParamForce { date_opt: None, nb_count_max: 0, force: false }),
    {
        ConfigParamForce { date_opt: None, nb_count_max: 0, force: false }
    }
}

/// Whether two texts hold the same characters.
pub fn same_text(a: &str, b: &str) -> (r: bool)
    ensures
        r == (a@ == b@),
{
    let x = String::from_str(a);
    let y = String::from_str(b);
    x == y
}

/// The cursor that a run starts from: the one that was read, or one with
/// zero values and a blank state when none was on disk.
pub fn init_config_param(lu: Option<ConfigParam>) -> (c: ConfigParam)
    ensures
        lu matches Some(p) ==> c == p,
        lu is None ==> c.date_dernier_traiment == 0 && c.offset == 0 && c.etat@
            == Seq::<char>::empty(),
{
    match lu {
        Some(p) => p,
        None => ConfigParam { date_dernier_traiment: 0, offset: 0, etat: String::new() },
    }
}

} // verus!
