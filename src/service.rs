//! The branch automation service: one generator, the resolved system
//! information, and the history of created branches.
use vstd::prelude::*;
use vstd::string::*;
use crate::creation::{BranchCreateRequest, BranchCreation, CreationAction, fresh_creation, pending_action};
use crate::history::{HistoryEntry, HistoryLog, history_count, insert_by_time};
use crate::services::{first_present, machine_name_of, opt_view, os_label, owned_or_unknown, text_is};
use crate::text::{chars_of, string_of, trim_chars};
use crate::naming::{
    BranchConfig, BranchGenerator, BranchPattern, FeatureType, PatternView, SystemInfo,
    generated_name,
};

verus! {

/// The pattern suggested for workspace `ws` and feature type `ft`.
pub open spec fn suggested_pattern(sys: SystemInfo, ws: Seq<char>, ft: FeatureType) -> PatternView {
    PatternView {
        workspace: ws,
        username: sys.username@,
        machine: sys.machine_name@,
        feature_type: ft,
        description: None,
    }
}

/// The feature types of `fts` whose suggested name generates, each with that
/// name, in order.
pub open spec fn suggestions_of(
    c: BranchConfig,
    sys: SystemInfo,
    ws: Seq<char>,
    fts: Seq<FeatureType>,
) -> Seq<(FeatureType, Seq<char>)>
    decreases fts.len(),
{
    if fts.len() == 0 {
        seq![]
    } else {
        let rest = suggestions_of(c, sys, ws, fts.drop_last());
        match generated_name(c, suggested_pattern(sys, ws, fts.last())) {
            Ok(n) => rest.push((fts.last(), n)),
            Err(_) => rest,
        }
    }
}

pub open spec fn suggestions_view(v: Seq<(FeatureType, String)>) -> Seq<(FeatureType, Seq<char>)> {
    v.map_values(|p: (FeatureType, String)| (p.0, p.1@))
}

/// The entries of `s` whose pattern could be read, in order.
pub open spec fn with_pattern(s: Seq<HistoryEntry>) -> Seq<HistoryEntry>
    decreases s.len(),
{
    if s.len() == 0 {
        seq![]
    } else if s.last().pattern is Some {
        with_pattern(s.drop_last()).push(s.last())
    } else {
        with_pattern(s.drop_last())
    }
}

/// Branch automation for one user and machine.
pub struct GitBranchService {
    pub generator: BranchGenerator,
    pub history: HistoryLog,
}

impl GitBranchService {
    /// The local identity from what the environment gives: the user from
    /// `USER`, `USERNAME` or `LOGNAME` in that order, the machine name and the
    /// operating system label.
    pub fn detect_system_info(
        user: Option<&str>,
        username: Option<&str>,
        logname: Option<&str>,
        target_os: &str,
        hostname_output: Option<&str>,
        computer_name: Option<&str>,
    ) -> (r: SystemInfo)
        ensures
            r.username@ == first_present(opt_view(user), opt_view(username), opt_view(logname)),
            r.machine_name@ == machine_name_of(target_os@, opt_view(hostname_output), opt_view(computer_name)),
            r.os_type@ == os_label(target_os@),
    {
        let name = match (user, username, logname) {
            (Some(x), _, _) => String::from_str(x),
            (None, Some(y), _) => String::from_str(y),
            (None, None, Some(z)) => String::from_str(z),
            _ => String::from_str("unknown"),
        };
        let is_mac = text_is(target_os, "macos");
        let is_linux = text_is(target_os, "linux");
        let is_windows = text_is(target_os, "windows");
        let machine = if is_mac || is_linux {
            match hostname_output {
                Some(o) => {
                    let cs = chars_of(o);
                    let t = trim_chars(cs.as_slice());
                    string_of(t.as_slice())
                },
                None => String::from_str("unknown"),
            }
        } else if is_windows {
            owned_or_unknown(computer_name)
        } else {
            String::from_str("unknown")
        };
        let os = if is_mac {
            String::from_str("macOS")
        } else if is_linux {
            String::from_str("Linux")
        } else if is_windows {
            String::from_str("Windows")
        } else {
            String::from_str("Unknown")
        };
        SystemInfo { username: name, machine_name: machine, os_type: os }
    }

    pub open spec fn well_formed(&self) -> bool {
        self.history.well_formed()
    }

    /// A service with an empty history.
    pub fn new(config: BranchConfig, system_info: SystemInfo) -> (r: GitBranchService)
        ensures
            r.well_formed(),
            r.generator.config == config,
            r.generator.system_info == system_info,
            r.history@ == Seq::<HistoryEntry>::empty(),
    {
        GitBranchService {
            generator: BranchGenerator::new(config, system_info),
            history: HistoryLog::new(),
        }
    }

    pub fn get_system_info(&self) -> (r: &SystemInfo)
        ensures
            *r == self.generator.system_info,
    {
        &self.generator.system_info
    }

    pub fn get_branch_config(&self) -> (r: &BranchConfig)
        ensures
            *r == self.generator.config,
    {
        &self.generator.config
    }

    /// Generates the branch name for `pattern` under the current configuration.
    pub fn generate_branch_name(&self, pattern: &BranchPattern) -> (r: Result<String, String>)
        ensures
            match r {
                Ok(n) => generated_name(self.generator.config, pattern@) == Ok::<
                    Seq<char>,
                    Seq<char>,
                >(n@),
                Err(e) => generated_name(self.generator.config, pattern@) == Err::<
                    Seq<char>,
                    Seq<char>,
                >(e@),
            },
    {
        self.generator.generate_branch_name(pattern)
    }

    /// A pattern for `workspace_name` with this machine's user and host.
    pub fn suggest_pattern(&self, workspace_name: &str, feature_type: Option<FeatureType>) -> (r:
        BranchPattern)
        ensures
            r@ == suggested_pattern(
                self.generator.system_info,
                workspace_name@,
                match feature_type {
                    Some(f) => f,
                    None => self.generator.config.default_feature_type,
                },
            ),
    {
        let r = self.generator.suggest_pattern(workspace_name, feature_type);
        r
    }

    /// Starts creating the branch that `request` describes; see
    /// [`BranchCreation`] for the steps that follow.
    pub fn create_branch(&self, request: &BranchCreateRequest) -> (r: Result<
        (BranchCreation, CreationAction),
        String,
    >)
        ensures
            match r {
                Ok((c, a)) => {
                    &&& generated_name(self.generator.config, request.pattern@) == Ok::<
                        Seq<char>,
                        Seq<char>,
                    >(c.branch_name@)
                    &&& c@ == fresh_creation(
                        c.branch_name@,
                        match request.base_branch {
                            Some(b) => Some(b@),
                            None => None,
                        },
                        request.auto_switch,
                    )
                    &&& a@ == pending_action(c@)
                },
                Err(e) => generated_name(self.generator.config, request.pattern@) == Err::<
                    Seq<char>,
                    Seq<char>,
                >(e@),
            },
    {
        BranchCreation::begin(&self.generator, request)
    }

    /// Appends a history entry for a created branch.
    pub fn save_branch_creation(&mut self, branch_name: String, pattern: BranchPattern, created_at: i64)
        requires
            old(self).well_formed(),
        ensures
            final(self).well_formed(),
            final(self).generator == old(self).generator,
            final(self).history@ == insert_by_time(
                old(self).history@,
                HistoryEntry { branch_name, pattern: Some(pattern), created_at },
            ),
    {
        self.history.record(HistoryEntry { branch_name, pattern: Some(pattern), created_at });
    }

    /// The most recent history entries, newest first, bounded by `limit`
    /// (50 when absent); entries whose pattern could not be read are left out.
    pub fn get_branch_history(&self, limit: Option<i32>) -> (r: Vec<HistoryEntry>)
        ensures
            r@ == with_pattern(self.history@.take(history_count(limit, self.history@.len()) as int)),
    {
        let recent = self.history.recent(limit);
        let ghost rv = recent@;
        let mut out: Vec<HistoryEntry> = Vec::new();
        let mut i: usize = 0;
        while i < recent.len()
            invariant
                rv == recent@,
                i <= rv.len(),
                out@ == with_pattern(rv.take(i as int)),
            decreases rv.len() - i,
        {
            assert(rv.take(i + 1).drop_last() =~= rv.take(i as int));
            let keep = match &recent[i].pattern {
                Some(_) => true,
                None => false,
            };
            if keep {
                out.push(recent[i].duplicate());
            }
            i = i + 1;
        }
        assert(rv.take(rv.len() as int) =~= rv);
        out
    }

    /// Replaces the configuration as a whole; the system information and the
    /// history stay.
    pub fn update_config(&mut self, config: BranchConfig)
        ensures
            final(self).generator.config == config,
            final(self).generator.system_info == old(self).generator.system_info,
            final(self).history == old(self).history,
    {
        let system_info = self.generator.system_info.duplicate();
        self.generator = BranchGenerator::new(config, system_info);
    }

    /// For every allowed feature type in order, the suggested name for
    /// `workspace_name`; a type whose name does not generate is left out.
    pub fn get_suggested_branches(&self, workspace_name: &str) -> (r: Vec<(FeatureType, String)>)
        ensures
            suggestions_view(r@) == suggestions_of(
                self.generator.config,
                self.generator.system_info,
                workspace_name@,
                self.generator.config.allowed_feature_types@,
            ),
    {
        let fts = &self.generator.config.allowed_feature_types;
        let ghost fv = fts@;
        let mut out: Vec<(FeatureType, String)> = Vec::new();
        let mut i: usize = 0;
        while i < fts.len()
            invariant
                fv == fts@,
                fv == self.generator.config.allowed_feature_types@,
                i <= fv.len(),
                suggestions_view(out@) == suggestions_of(
                    self.generator.config,
                    self.generator.system_info,
                    workspace_name@,
                    fv.take(i as int),
                ),
            decreases fv.len() - i,
        {
            let ft = fts[i];
            assert(fv.take(i + 1).drop_last() =~= fv.take(i as int));
            let pattern = self.suggest_pattern(workspace_name, Some(ft));
            match self.generate_branch_name(&pattern) {
                Ok(name) => {
                    out.push((ft, name));
                },
                Err(_) => {},
            }
            assert(suggestions_view(out@) =~= suggestions_of(
                self.generator.config,
                self.generator.system_info,
                workspace_name@,
                fv.take(i + 1),
            ));
            i = i + 1;
        }
        assert(fv.take(fv.len() as int) =~= fv);
        out
    }
}

} // verus!
