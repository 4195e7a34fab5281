//! The table of scheduled diagnostics and the history of their runs.

use vstd::prelude::*;
use crate::daemon::config::{DiagnosticType, ScheduleConfig};
use crate::daemon::error::DaemonError;
use crate::text::str_to_string;

verus! {

/// A scheduled diagnostic job.
#[derive(Debug)]
pub struct ScheduledJob {
    /// Unique job ID.
    pub id: u128,
    /// Job name.
    pub name: String,
    /// Cron expression.
    pub cron: String,
    /// Diagnostic type.
    pub diagnostic_type: DiagnosticType,
    /// Whether the job is enabled.
    pub enabled: bool,
    /// Last run time (milliseconds since the Unix epoch).
    pub last_run: Option<i64>,
    /// Next run time (milliseconds since the Unix epoch).
    pub next_run: Option<i64>,
}

/// The job that a schedule becomes once registered under `id`.
pub open spec fn job_for(config: ScheduleConfig, id: u128, job: ScheduledJob) -> bool {
    &&& job.id == id
    &&& job.name@ == config.name@
    &&& job.cron@ == config.cron@
    &&& job.diagnostic_type == config.diagnostic
    &&& job.enabled
    &&& job.last_run is None
    &&& job.next_run is None
}

/// The index of the first job named `name`, if any.
pub open spec fn first_named(jobs: Seq<ScheduledJob>, name: Seq<char>) -> Option<int> {
    if exists|i: int| 0 <= i < jobs.len() && jobs[i].name@ == name {
        Some(choose|i: int| 0 <= i < jobs.len() && jobs[i].name@ == name
            && forall|j: int| 0 <= j < i ==> jobs[j].name@ != name)
    } else {
        None
    }
}

/// The jobs of the scheduler.
#[derive(Debug)]
pub struct JobTable {
    /// Registered jobs, in registration order.
    pub jobs: Vec<ScheduledJob>,
}

fn find_named(jobs: &Vec<ScheduledJob>, name: &str) -> (r: Option<usize>)
    ensures
        match r {
            Some(i) => i < jobs@.len() && jobs@[i as int].name@ == name@
                && forall|j: int| 0 <= j < i ==> jobs@[j].name@ != name@,
            None => forall|j: int| 0 <= j < jobs@.len() ==> jobs@[j].name@ != name@,
        },
{
    let target = str_to_string(name);
    let mut i: usize = 0;
    while i < jobs.len()
        invariant
            i <= jobs@.len(),
            target@ == name@,
            forall|j: int| 0 <= j < i ==> jobs@[j].name@ != name@,
        decreases jobs@.len() - i,
    {
        if jobs[i].name == target {
            return Some(i);
        }
        i = i + 1;
    }
    None
}

/// The message of the error for an unknown job name.
pub open spec fn unknown_job_message(name: Seq<char>) -> Seq<char> {
    "Job '"@ + name + "' not found"@
}

impl JobTable {
    /// A table without jobs.
    pub fn new() -> (r: Self)
        ensures
            r.jobs@.len() == 0,
    {
        JobTable { jobs: Vec::new() }
    }

    /// Registers the job for a schedule under `id`.
    pub fn add_schedule(&mut self, config: &ScheduleConfig, id: u128)
        ensures
            final(self).jobs@.len() == old(self).jobs@.len() + 1,
            final(self).jobs@.take(old(self).jobs@.len() as int) == old(self).jobs@,
            job_for(*config, id, final(self).jobs@.last()),
    {
        let job = ScheduledJob {
            id,
            name: config.name.clone(),
            cron: config.cron.clone(),
            diagnostic_type: config.diagnostic,
            enabled: true,
            last_run: None,
            next_run: None,
        };
        self.jobs.push(job);
        assert(self.jobs@.take(old(self).jobs@.len() as int) =~= old(self).jobs@);
    }

    /// Updates the last run time of the first job with this name (no
    /// change when there is none).
    pub fn update_last_run(&mut self, job_name: &str, timestamp: i64)
        ensures
            final(self).jobs@.len() == old(self).jobs@.len(),
            match first_named(old(self).jobs@, job_name@) {
                Some(i) => final(self).jobs@[i].last_run == Some(timestamp)
                    && final(self).jobs@[i].name == old(self).jobs@[i].name
                    && final(self).jobs@[i].enabled == old(self).jobs@[i].enabled
                    && forall|j: int| 0 <= j < old(self).jobs@.len() && j != i ==> final(self).jobs@[j] == old(self).jobs@[j],
                None => final(self).jobs@ == old(self).jobs@,
            },
    {
        match find_named(&self.jobs, job_name) {
            Some(i) => {
                let mut job = self.jobs.remove(i);
                job.last_run = Some(timestamp);
                self.jobs.insert(i, job);
                proof { self.first_named_is(old(self).jobs@, job_name@, i as int); }
            },
            None => {
                proof { self.first_named_none(old(self).jobs@, job_name@); }
            },
        }
    }

    /// Enables or disables the first job with this name; an error when there
    /// is none.
    pub fn set_job_enabled(&mut self, job_name: &str, enabled: bool) -> (r: Result<(), DaemonError>)
        ensures
            final(self).jobs@.len() == old(self).jobs@.len(),
            match first_named(old(self).jobs@, job_name@) {
                Some(i) => r is Ok && final(self).jobs@[i].enabled == enabled
                    && final(self).jobs@[i].name == old(self).jobs@[i].name
                    && final(self).jobs@[i].last_run == old(self).jobs@[i].last_run
                    && forall|j: int| 0 <= j < old(self).jobs@.len() && j != i ==> final(self).jobs@[j] == old(self).jobs@[j],
                None => final(self).jobs@ == old(self).jobs@
                    && (r matches Err(DaemonError::Scheduler { message }) && message@ == unknown_job_message(job_name@)),
            },
    {
        match find_named(&self.jobs, job_name) {
            Some(i) => {
                let mut job = self.jobs.remove(i);
                job.enabled = enabled;
                self.jobs.insert(i, job);
                proof { self.first_named_is(old(self).jobs@, job_name@, i as int); }
                Ok(())
            },
            None => {
                proof { self.first_named_none(old(self).jobs@, job_name@); }
                let mut m = str_to_string("Job '");
                m.append(job_name);
                m.append("' not found");
                Err(DaemonError::scheduler(m))
            },
        }
    }

    proof fn first_named_is(&self, jobs: Seq<ScheduledJob>, name: Seq<char>, i: int)
        requires
            0 <= i < jobs.len(),
            jobs[i].name@ == name,
            forall|j: int| 0 <= j < i ==> jobs[j].name@ != name,
        ensures
            first_named(jobs, name) == Some(i),
    {
        let k = choose|k: int| 0 <= k < jobs.len() && jobs[k].name@ == name
            && forall|j: int| 0 <= j < k ==> jobs[j].name@ != name;
        assert(k == i) by {
            if k < i { assert(jobs[k].name@ != name); }
            if k > i { assert(jobs[i].name@ != name); }
        }
    }

    proof fn first_named_none(&self, jobs: Seq<ScheduledJob>, name: Seq<char>)
        requires
            forall|j: int| 0 <= j < jobs.len() ==> jobs[j].name@ != name,
        ensures
            first_named(jobs, name) is None,
    {
    }
}

/// A diagnostic request sent to the executor.
#[derive(Debug)]
pub struct DiagnosticRequest {
    /// Run ID.
    pub run_id: u128,
    /// Job name.
    pub job_name: String,
    /// Diagnostic type.
    pub diagnostic_type: DiagnosticType,
}

/// Result of a scheduled diagnostic run.
#[derive(Debug)]
pub struct DiagnosticRun {
    /// Run ID.
    pub id: u128,
    /// Job that triggered this run.
    pub job_name: String,
    /// Diagnostic type.
    pub diagnostic_type: DiagnosticType,
    /// Start time (milliseconds since the Unix epoch).
    pub started_at: i64,
    /// End time (milliseconds since the Unix epoch).
    pub completed_at: Option<i64>,
    /// Whether the run succeeded.
    pub success: bool,
    /// Result summary.
    pub summary: Option<String>,
    /// Error message if failed.
    pub error: Option<String>,
}

/// The summary a diagnostic of each type reports.
pub open spec fn summary_for(t: DiagnosticType) -> Seq<char> {
    match t {
        DiagnosticType::Quick => "Gateway: OK, DNS: OK, Internet: OK"@,
        DiagnosticType::Full => "Full diagnostic completed: All systems operational"@,
        DiagnosticType::Wifi => "WiFi: Connected, Signal: Good"@,
        DiagnosticType::Speed => "Download: 100 Mbps, Upload: 50 Mbps, Latency: 15ms"@,
        DiagnosticType::Custom => "Custom diagnostic completed"@,
    }
}

/// The summary a diagnostic of this type reports.
pub fn diagnostic_summary(t: DiagnosticType) -> (r: String)
    ensures
        r@ == summary_for(t),
{
    match t {
        DiagnosticType::Quick => str_to_string("Gateway: OK, DNS: OK, Internet: OK"),
        DiagnosticType::Full => str_to_string("Full diagnostic completed: All systems operational"),
        DiagnosticType::Wifi => str_to_string("WiFi: Connected, Signal: Good"),
        DiagnosticType::Speed => str_to_string("Download: 100 Mbps, Upload: 50 Mbps, Latency: 15ms"),
        DiagnosticType::Custom => str_to_string("Custom diagnostic completed"),
    }
}

/// The seconds each diagnostic type takes to run.
pub fn diagnostic_duration_secs(t: DiagnosticType) -> (r: u64)
    ensures
        r == (match t {
            DiagnosticType::Quick => 1u64,
            DiagnosticType::Full => 5,
            DiagnosticType::Wifi => 2,
            DiagnosticType::Speed => 10,
            DiagnosticType::Custom => 1,
        }),
{
    match t {
        DiagnosticType::Quick => 1,
        DiagnosticType::Full => 5,
        DiagnosticType::Wifi => 2,
        DiagnosticType::Speed => 10,
        DiagnosticType::Custom => 1,
    }
}

/// The history of diagnostic runs, oldest first, holding at most
/// `max_history` runs.
#[derive(Debug)]
pub struct RunHistory {
    /// Runs, oldest first.
    runs: Vec<DiagnosticRun>,
    /// The most runs kept.
    max_history: usize,
}

impl RunHistory {
    /// The runs kept, oldest first.
    pub closed spec fn runs(&self) -> Seq<DiagnosticRun> {
        self.runs@
    }

    /// The most runs kept.
    pub closed spec fn limit(&self) -> nat {
        self.max_history as nat
    }

    /// The history never holds more runs than its limit.
    pub closed spec fn wf(&self) -> bool {
        self.runs@.len() <= self.max_history
    }

    /// An empty history keeping at most `max_history` runs.
    pub fn new(max_history: usize) -> (r: Self)
        ensures
            r.wf(),
            r.runs().len() == 0,
            r.limit() == max_history,
    {
        RunHistory { runs: Vec::new(), max_history }
    }

    /// Records the outcome of a request that started at `started_at` and
    /// completed at `completed_at`: the summary on success, the error
    /// message on failure. The oldest runs are dropped to keep the limit.
    pub fn record(&mut self, request: DiagnosticRequest, started_at: i64, completed_at: i64, outcome: Result<String, String>)
        requires
            old(self).wf(),
        ensures
            final(self).wf(),
            final(self).limit() == old(self).limit(),
            final(self).runs() == (old(self).runs().push(final(self).runs().last())).skip(
                (old(self).runs().len() + 1) - final(self).runs().len()),
            final(self).runs().len() == if old(self).runs().len() + 1 > old(self).limit() {
                old(self).limit()
            } else {
                old(self).runs().len() + 1
            },
            final(self).runs().len() > 0 ==> {
                let run = final(self).runs().last();
                &&& run.id == request.run_id
                &&& run.job_name == request.job_name
                &&& run.diagnostic_type == request.diagnostic_type
                &&& run.started_at == started_at
                &&& run.completed_at == Some(completed_at)
                &&& run.success == (outcome is Ok)
                &&& outcome matches Ok(s) ==> (run.summary matches Some(t) && t@ == s@) && run.error is None
                &&& outcome matches Err(e) ==> (run.error matches Some(t) && t@ == e@) && run.summary is None
            },
    {
        let (success, summary, error) = match outcome {
            Ok(s) => (true, Some(s), None),
            Err(e) => (false, None, Some(e)),
        };
        let run = DiagnosticRun {
            id: request.run_id,
            job_name: request.job_name,
            diagnostic_type: request.diagnostic_type,
            started_at,
            completed_at: Some(completed_at),
            success,
            summary,
            error,
        };
        let ghost pushed = old(self).runs@.push(run);
        self.runs.push(run);
        assert(self.runs@ == pushed);
        if self.runs.len() > self.max_history {
            let excess = self.runs.len() - self.max_history;
            let mut all_runs = Vec::new();
            std::mem::swap(&mut all_runs, &mut self.runs);
            assert(all_runs@ == pushed);
            let kept = all_runs.split_off(excess);
            assert(kept@ =~= pushed.skip(excess as int));
            self.runs = kept;
        }
        assert(self.runs@ =~= pushed.skip((old(self).runs@.len() + 1) - self.runs@.len()));
    }

    /// The `limit` most recent runs, newest first.
    pub fn recent(&self, limit: usize) -> (r: Vec<&DiagnosticRun>)
        ensures
            r@.len() == if limit < self.runs().len() { limit as nat } else { self.runs().len() },
            forall|k: int| 0 <= k < r@.len() ==> *r@[k] == self.runs()[self.runs().len() - 1 - k],
    {
        let mut r: Vec<&DiagnosticRun> = Vec::new();
        let n = self.runs.len();
        let mut k: usize = 0;
        while k < n && k < limit
            invariant
                n == self.runs@.len(),
                k <= n,
                k <= limit,
                r@.len() == k,
                forall|j: int| 0 <= j < k ==> *r@[j] == self.runs@[n - 1 - j],
            decreases n - k,
        {
            r.push(&self.runs[n - 1 - k]);
            k = k + 1;
        }
        r
    }
}

} // verus!
