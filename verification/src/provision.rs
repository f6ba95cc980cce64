//! The provisioning plan: a run is planned as an explicit sequence of
//! external actions, computed purely from the domain and the observed
//! initial state.  The caller executes the actions in order and stops
//! at the first fatal failure; replaying the write and truncate
//! actions over the initial file content gives the file's final text.

use vstd::prelude::*;
use vstd::string::StringExecFns;

verus! {

/// One external effect of a provisioning run.
#[derive(Debug)]
pub enum Action {
    /// Create the configuration file; an already existing file is fatal.
    CreateConfigFile,
    /// Hand the configuration file to the service user.
    ChownConfigFile,
    /// Byte-copy the configuration file to its backup path.
    BackupConfigFile,
    /// Append this text to the configuration file.
    WriteConfigText(String),
    /// Truncate the configuration file to length zero.
    TruncateConfigFile,
    /// Create the web root with its placeholder; a root that already
    /// has content is a logged, non-fatal conflict.
    CreateWebRoot,
    /// Activate the site under this name (the backend that needs an
    /// activation step).
    EnableSite(String),
    /// Create the enabled-sites symlink for this file name (the
    /// backend that needs one); an existing link is a logged,
    /// non-fatal conflict.
    CreateSymlink(String),
    /// Run the configuration syntax check (the backend that has one).
    ValidateConfig,
    /// Reload the running service.
    ReloadWebServer,
    /// Invoke certificate issuance for this canonical domain.
    IssueCertificate(String),
}

/// The mathematical form of an action, with texts as character
/// sequences.
pub enum ActionModel {
    CreateConfigFile,
    ChownConfigFile,
    BackupConfigFile,
    WriteConfigText(Seq<char>),
    TruncateConfigFile,
    CreateWebRoot,
    EnableSite(Seq<char>),
    CreateSymlink(Seq<char>),
    ValidateConfig,
    ReloadWebServer,
    IssueCertificate(Seq<char>),
}

impl View for Action {
    type V = ActionModel;

    open spec fn view(&self) -> ActionModel {
        match self {
            Action::CreateConfigFile => ActionModel::CreateConfigFile,
            Action::ChownConfigFile => ActionModel::ChownConfigFile,
            Action::BackupConfigFile => ActionModel::BackupConfigFile,
            Action::WriteConfigText(t) => ActionModel::WriteConfigText(t@),
            Action::TruncateConfigFile => ActionModel::TruncateConfigFile,
            Action::CreateWebRoot => ActionModel::CreateWebRoot,
            Action::EnableSite(s) => ActionModel::EnableSite(s@),
            Action::CreateSymlink(s) => ActionModel::CreateSymlink(s@),
            Action::ValidateConfig => ActionModel::ValidateConfig,
            Action::ReloadWebServer => ActionModel::ReloadWebServer,
            Action::IssueCertificate(s) => ActionModel::IssueCertificate(s@),
        }
    }
}

impl DeepView for Action {
    type V = ActionModel;

    open spec fn deep_view(&self) -> ActionModel {
        self.view()
    }
}

/// Why a provisioning run refuses to start.
#[derive(Debug, Clone, Copy, PartialEq, Eq, Structural)]
pub enum ProvisionError {
    /// The web-server binary or the certificate tool is missing; the
    /// run aborts before any file or web-root mutation.
    MissingDependencies,
}

/// What one action does to the configuration file's content.
pub open spec fn action_step(content: Seq<char>, action: ActionModel) -> Seq<char> {
    match action {
        ActionModel::WriteConfigText(t) => content + t,
        ActionModel::TruncateConfigFile => Seq::empty(),
        _ => content,
    }
}

/// The file content after replaying the actions in order over the
/// initial content.
pub open spec fn apply_actions(content: Seq<char>, actions: Seq<ActionModel>) -> Seq<char>
    decreases actions.len(),
{
    if actions.len() == 0 {
        content
    } else {
        apply_actions(action_step(content, actions.first()), actions.drop_first())
    }
}

/// Replaying a concatenation replays each part in turn.
pub proof fn lemma_apply_actions_concat(content: Seq<char>, a: Seq<ActionModel>, b: Seq<ActionModel>)
    ensures
        apply_actions(content, a + b) == apply_actions(apply_actions(content, a), b),
    decreases a.len(),
{
    if a.len() == 0 {
        assert(a + b =~= b);
    } else {
        assert((a + b).first() == a.first());
        assert((a + b).drop_first() =~= a.drop_first() + b);
        lemma_apply_actions_concat(action_step(content, a.first()), a.drop_first(), b);
    }
}

/// The file content after executing a whole plan over the initial
/// content; what the tests and the caller inspect.
pub fn resulting_content(initial: &str, plan: &Vec<Action>) -> (r: String)
    ensures
        r@ == apply_actions(initial@, plan.deep_view()),
{
    let n: usize = plan.len();
    let mut r = String::from_str(initial);
    let mut i: usize = 0;
    proof {
        assert(plan.deep_view().take(0) =~= Seq::<ActionModel>::empty());
    }
    while i < n
        invariant
            n == plan.len(),
            i <= n,
            r@ == apply_actions(initial@, plan.deep_view().take(i as int)),
        decreases n - i,
    {
        let ghost acts = plan.deep_view();
        let ghost a_i = acts[i as int];
        let ghost prev = r@;
        proof {
            assert(acts.take(i + 1) =~= acts.take(i as int) + seq![a_i]);
            lemma_apply_actions_concat(initial@, acts.take(i as int), seq![a_i]);
            assert(seq![a_i].first() == a_i);
            assert(seq![a_i].drop_first() =~= Seq::<ActionModel>::empty());
            assert(apply_actions(action_step(prev, a_i), Seq::<ActionModel>::empty())
                == action_step(prev, a_i));
            assert(apply_actions(prev, seq![a_i]) == action_step(prev, a_i));
            assert(apply_actions(initial@, acts.take(i + 1)) == action_step(prev, a_i));
            assert(a_i == plan@[i as int]@);
        }
        match &plan[i] {
            Action::WriteConfigText(t) => {
                r.append(t.as_str());
                proof {
                    assert(a_i matches ActionModel::WriteConfigText(tv) && tv == t@);
                    assert(r@ == action_step(prev, a_i));
                }
            },
            Action::TruncateConfigFile => {
                r = String::new();
                proof {
                    assert(r@ =~= Seq::<char>::empty());
                    assert(r@ == action_step(prev, a_i));
                }
            },
            _ => {
                proof {
                    assert(r@ == action_step(prev, a_i));
                }
            },
        }
        i = i + 1;
    }
    proof {
        assert(plan.deep_view().take(n as int) =~= plan.deep_view());
    }
    r
}

} // verus!
