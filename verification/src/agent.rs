//! The description of the background service that keeps the session
//! running: what gets written as a launch-agent declaration. Writing,
//! reading and controlling the agent is platform work outside the
//! library.

use vstd::prelude::*;

verus! {

/// Mathematical model of a [`LaunchAgent`].
#[verifier::ext_equal]
pub struct LaunchAgentView {
    pub label: Seq<char>,
    pub program_arguments: Seq<Seq<char>>,
    pub standard_out_path: Seq<char>,
    pub standard_error_path: Seq<char>,
    pub keep_alive: bool,
    pub run_at_load: bool,
}

/// A background-service declaration: the label it is registered under,
/// the command line it runs, where its output goes, and its restart
/// policy.
#[derive(Debug)]
pub struct LaunchAgent {
    pub label: String,
    pub program_arguments: Vec<String>,
    pub standard_out_path: String,
    pub standard_error_path: String,
    pub keep_alive: bool,
    pub run_at_load: bool,
}

impl View for LaunchAgent {
    type V = LaunchAgentView;

    open spec fn view(&self) -> LaunchAgentView {
        LaunchAgentView {
            label: self.label@,
            program_arguments: self.program_arguments.deep_view(),
            standard_out_path: self.standard_out_path@,
            standard_error_path: self.standard_error_path@,
            keep_alive: self.keep_alive,
            run_at_load: self.run_at_load,
        }
    }
}

impl LaunchAgent {
    /// A declaration under the given label that runs nothing yet,
    /// discards its output, and neither restarts nor starts at load.
    pub fn new(label: &str) -> (r: LaunchAgent)
        ensures
            r@.label == label@,
            r@.program_arguments == Seq::<Seq<char>>::empty(),
            r@.standard_out_path == "/dev/null"@,
            r@.standard_error_path == "/dev/null"@,
            !r@.keep_alive,
            !r@.run_at_load,
    {
        let r = LaunchAgent {
            label: label.to_owned(),
            program_arguments: Vec::new(),
            standard_out_path: "/dev/null".to_owned(),
            standard_error_path: "/dev/null".to_owned(),
            keep_alive: false,
            run_at_load: false,
        };
        proof {
            assert(r@.program_arguments =~= Seq::<Seq<char>>::empty());
        }
        r
    }

    /// The path a label's declaration is registered under, inside the
    /// given home directory.
    pub fn path_for(home: &str, label: &str) -> (r: String)
        ensures
            r@ == home@ + "/Library/LaunchAgents/"@ + label@ + ".plist"@,
    {
        let mut p = home.to_owned();
        p.append("/Library/LaunchAgents/");
        p.append(label);
        p.append(".plist");
        p
    }

    /// The path this declaration is registered under, inside the given
    /// home directory.
    pub fn path(&self, home: &str) -> (r: String)
        ensures
            r@ == home@ + "/Library/LaunchAgents/"@ + self@.label + ".plist"@,
    {
        LaunchAgent::path_for(home, self.label.as_str())
    }
}

} // verus!
