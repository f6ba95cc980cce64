//! The nginx provisioning orchestrator: decides between the create
//! and append workflows and plans the full run as an ordered action
//! sequence.  This backend activates a new file through the
//! enabled-sites symlink and validates syntax before each reload.

use vstd::prelude::*;
use vstd::string::StringExecFns;

use crate::chars::{is_digit, is_lower, is_space};
use crate::configuration_file::{declares, ends_with, has_hash, line_declares, trimmed};
use crate::domain::{lemma_canonical_charset, Domain, DomainView};
use crate::http_config::{
    listen_80_lead, nginx_https, nginx_redirect, nginx_well_known, server_name_line, HttpConfig,
};
use crate::nginx::config_file::{nginx_needle, ConfigFile};
use crate::provision::{
    action_step, apply_actions, lemma_apply_actions_concat, Action, ActionModel, ProvisionError,
};

verus! {

/// The run planned when no configuration file exists yet.
pub open spec fn create_actions(d: DomainView) -> Seq<ActionModel> {
    seq![
        ActionModel::CreateConfigFile,
        ActionModel::ChownConfigFile,
        ActionModel::CreateSymlink(d.conf_file()),
        ActionModel::WriteConfigText(nginx_well_known(d) + "\n"@),
        ActionModel::CreateWebRoot,
        ActionModel::ValidateConfig,
        ActionModel::ReloadWebServer,
        ActionModel::IssueCertificate(d.canonical()),
        ActionModel::TruncateConfigFile,
        ActionModel::WriteConfigText(nginx_redirect(d) + "\n"@),
        ActionModel::WriteConfigText(nginx_https(d) + "\n"@),
        ActionModel::ValidateConfig,
        ActionModel::ReloadWebServer,
    ]
}

/// The run planned against an existing file with the given content:
/// a backup always; nothing more when the file already declares the
/// domain; else the full workflow, replaying the original content
/// after the truncation so no other domain's blocks are lost.
pub open spec fn append_actions(d: DomainView, existing: Seq<char>) -> Seq<ActionModel> {
    if declares(existing, nginx_needle(d)) {
        seq![ActionModel::BackupConfigFile]
    } else {
        seq![
            ActionModel::BackupConfigFile,
            ActionModel::WriteConfigText(nginx_well_known(d) + "\n"@),
            ActionModel::CreateWebRoot,
            ActionModel::ValidateConfig,
            ActionModel::ReloadWebServer,
            ActionModel::IssueCertificate(d.canonical()),
            ActionModel::TruncateConfigFile,
            ActionModel::WriteConfigText(existing),
            ActionModel::WriteConfigText(nginx_redirect(d) + "\n"@),
            ActionModel::WriteConfigText(nginx_https(d) + "\n"@),
            ActionModel::ValidateConfig,
            ActionModel::ReloadWebServer,
        ]
    }
}

/// The `server_name` line of a block carries no line break and, once
/// trimmed, is exactly the directive the declaration scan looks for.
proof fn lemma_server_name_line_facts(d: DomainView)
    requires
        d.wf(),
    ensures
        forall|i: int|
            0 <= i < server_name_line(d).len() ==> #[trigger] server_name_line(d)[i] != '\n',
        line_declares(server_name_line(d), nginx_needle(d)),
{
    reveal_strlit("            ");
    reveal_strlit("server_name ");
    reveal_strlit(";");
    lemma_canonical_charset(d);
    let sp = "            "@;
    let lit = "server_name "@;
    let c = d.canonical();
    let needle = nginx_needle(d);
    let line = server_name_line(d);
    assert(sp.len() == 12);
    assert(forall|i: int| 0 <= i < 12 ==> #[trigger] sp[i] == ' ');
    assert(lit.len() == 12);
    assert(lit[0] == 's');
    assert(forall|i: int| 0 <= i < 12 ==> #[trigger] lit[i] != '\n' && lit[i] != '#');
    assert(";"@.len() == 1 && ";"@[0] == ';');
    assert forall|i: int| 0 <= i < c.len() implies #[trigger] c[i] != '\n' && c[i] != '#'
        && !is_space(c[i]) by {
        assert(is_lower(c[i]) || is_digit(c[i]) || c[i] == '.' || c[i] == '-');
    }
    assert forall|i: int| 0 <= i < line.len() implies #[trigger] line[i] != '\n' by {
        if i < 12 {
            assert(line[i] == sp[i]);
        } else if i < 24 {
            assert(line[i] == lit[i - 12]);
        } else if i < 24 + c.len() {
            assert(line[i] == c[i - 24]);
        } else {
            assert(line[i] == ';');
        }
    }
    assert forall|j: int| 0 <= j < 12 implies is_space(#[trigger] line[j]) by {
        assert(line[j] == sp[j]);
    }
    assert(line[12] == lit[0]);
    assert(!is_space('s'));
    crate::configuration_file::lemma_trim_start_drop(line, 12);
    assert(line.skip(12) =~= needle);
    assert(needle.len() == 13 + c.len());
    assert(needle[needle.len() - 1] == ';');
    assert(!is_space(';'));
    crate::configuration_file::lemma_trim_end_take(needle, needle.len() as int);
    assert(needle.take(needle.len() as int) =~= needle);
    assert(trimmed(line) == needle);
    assert forall|i: int| 0 <= i < needle.len() implies #[trigger] needle[i] != '#' by {
        if i < 12 {
            assert(needle[i] == lit[i]);
        } else if i < 12 + c.len() {
            assert(needle[i] == c[i - 12]);
        } else {
            assert(needle[i] == ';');
        }
    }
    assert(!has_hash(needle));
    assert(needle.subrange(0, needle.len() as int) =~= needle);
    assert(ends_with(needle, needle));
}

/// Law: any file content carrying the redirect and HTTPS blocks
/// written by a run, whatever stands before them, declares the domain
/// to the scan.
pub proof fn lemma_provisioned_declares(prefix: Seq<char>, d: DomainView)
    requires
        d.wf(),
    ensures
        declares(
            prefix + nginx_redirect(d) + "\n"@ + nginx_https(d) + "\n"@,
            nginx_needle(d),
        ),
{
    reveal_strlit("\n");
    assert("\n"@ =~= seq!['\n']);
    lemma_server_name_line_facts(d);
    let line = server_name_line(d);
    let a = prefix + listen_80_lead();
    let b = "    \n            return 301 https://"@ + d.canonical() + "$request_uri;\n    }"@
        + "\n"@ + nginx_https(d) + "\n"@;
    let text = prefix + nginx_redirect(d) + "\n"@ + nginx_https(d) + "\n"@;
    assert(text =~= a + seq!['\n'] + line + seq!['\n'] + b);
    crate::configuration_file::lemma_text_declares(a, line, b, nginx_needle(d));
    assert(declares(text, nginx_needle(d)));
}

/// Law: the final content of a create run is the redirect block then
/// the HTTPS block; the temporary well-known block is discarded by the
/// truncation.
pub proof fn lemma_create_content(d: DomainView)
    ensures
        apply_actions(Seq::empty(), create_actions(d)) == nginx_redirect(d) + "\n"@
            + nginx_https(d) + "\n"@,
{
    let w1 = nginx_redirect(d) + "\n"@;
    let w2 = nginx_https(d) + "\n"@;
    let pre = seq![
        ActionModel::CreateConfigFile,
        ActionModel::ChownConfigFile,
        ActionModel::CreateSymlink(d.conf_file()),
        ActionModel::WriteConfigText(nginx_well_known(d) + "\n"@),
        ActionModel::CreateWebRoot,
        ActionModel::ValidateConfig,
        ActionModel::ReloadWebServer,
        ActionModel::IssueCertificate(d.canonical()),
    ];
    let trunc = seq![ActionModel::TruncateConfigFile];
    let post = seq![
        ActionModel::WriteConfigText(w1),
        ActionModel::WriteConfigText(w2),
        ActionModel::ValidateConfig,
        ActionModel::ReloadWebServer,
    ];
    assert(create_actions(d) =~~= (pre + trunc) + post);
    lemma_apply_actions_concat(Seq::empty(), pre + trunc, post);
    lemma_apply_actions_concat(Seq::empty(), pre, trunc);
    let after_pre = apply_actions(Seq::empty(), pre);
    assert(trunc.first() == ActionModel::TruncateConfigFile);
    assert(trunc.drop_first() =~= Seq::<ActionModel>::empty());
    assert(action_step(after_pre, ActionModel::TruncateConfigFile) == Seq::<char>::empty());
    assert(apply_actions(Seq::<char>::empty(), Seq::<ActionModel>::empty())
        == Seq::<char>::empty());
    assert(apply_actions(after_pre, trunc) == Seq::<char>::empty());
    lemma_apply_write_write_tail(w1, w2, post);
    assert(apply_actions(Seq::empty(), create_actions(d)) == w1 + w2);
    assert(w1 + w2 =~= nginx_redirect(d) + "\n"@ + nginx_https(d) + "\n"@);
}

/// Replaying two writes followed by inspection-only actions appends
/// both texts to empty content.
proof fn lemma_apply_write_write_tail(w1: Seq<char>, w2: Seq<char>, post: Seq<ActionModel>)
    requires
        post.len() >= 2,
        post[0] == ActionModel::WriteConfigText(w1),
        post[1] == ActionModel::WriteConfigText(w2),
        forall|i: int|
            2 <= i < post.len() ==> !((#[trigger] post[i]) is WriteConfigText) && !(post[i]
                is TruncateConfigFile),
    ensures
        apply_actions(Seq::empty(), post) == w1 + w2,
{
    let rest = post.skip(2);
    assert(post.drop_first().drop_first() =~= rest);
    assert(post.drop_first().first() == post[1]);
    assert(action_step(Seq::empty(), post[0]) =~= w1);
    assert(apply_actions(Seq::empty(), post) == apply_actions(w1, post.drop_first()));
    assert(apply_actions(w1, post.drop_first()) == apply_actions(w1 + w2, rest));
    lemma_apply_untouched(w1 + w2, rest);
}

/// Actions that neither write nor truncate leave the content alone.
proof fn lemma_apply_untouched(content: Seq<char>, actions: Seq<ActionModel>)
    requires
        forall|i: int|
            0 <= i < actions.len() ==> !((#[trigger] actions[i]) is WriteConfigText) && !(
            actions[i] is TruncateConfigFile),
    ensures
        apply_actions(content, actions) == content,
    decreases actions.len(),
{
    if actions.len() > 0 {
        assert(!(actions[0] is WriteConfigText) && !(actions[0] is TruncateConfigFile));
        assert(action_step(content, actions.first()) == content);
        assert forall|i: int|
            0 <= i < actions.drop_first().len() implies !((#[trigger] actions.drop_first()[i])
            is WriteConfigText) && !(actions.drop_first()[i] is TruncateConfigFile) by {
            assert(actions.drop_first()[i] == actions[i + 1]);
        }
        lemma_apply_untouched(content, actions.drop_first());
    }
}

/// Law: the final content of an append run on a file not yet
/// declaring the domain is the original text followed by the new
/// redirect and HTTPS blocks; nothing of the original content is
/// lost.
pub proof fn lemma_append_content(d: DomainView, existing: Seq<char>)
    requires
        !declares(existing, nginx_needle(d)),
    ensures
        apply_actions(existing, append_actions(d, existing)) == existing + nginx_redirect(d)
            + "\n"@ + nginx_https(d) + "\n"@,
{
    let w1 = nginx_redirect(d) + "\n"@;
    let w2 = nginx_https(d) + "\n"@;
    let pre = seq![
        ActionModel::BackupConfigFile,
        ActionModel::WriteConfigText(nginx_well_known(d) + "\n"@),
        ActionModel::CreateWebRoot,
        ActionModel::ValidateConfig,
        ActionModel::ReloadWebServer,
        ActionModel::IssueCertificate(d.canonical()),
    ];
    let trunc = seq![ActionModel::TruncateConfigFile];
    let post = seq![
        ActionModel::WriteConfigText(existing),
        ActionModel::WriteConfigText(w1),
        ActionModel::WriteConfigText(w2),
        ActionModel::ValidateConfig,
        ActionModel::ReloadWebServer,
    ];
    assert(append_actions(d, existing) =~~= (pre + trunc) + post);
    lemma_apply_actions_concat(existing, pre + trunc, post);
    lemma_apply_actions_concat(existing, pre, trunc);
    let after_pre = apply_actions(existing, pre);
    assert(trunc.first() == ActionModel::TruncateConfigFile);
    assert(trunc.drop_first() =~= Seq::<ActionModel>::empty());
    assert(apply_actions(Seq::<char>::empty(), Seq::<ActionModel>::empty())
        == Seq::<char>::empty());
    assert(apply_actions(after_pre, trunc) == Seq::<char>::empty());
    let tail = post.drop_first();
    assert(post.first() == ActionModel::WriteConfigText(existing));
    assert(Seq::<char>::empty() + existing =~= existing);
    assert(apply_actions(Seq::<char>::empty(), post) == apply_actions(existing, tail));
    assert(tail =~= seq![
        ActionModel::WriteConfigText(w1),
        ActionModel::WriteConfigText(w2),
        ActionModel::ValidateConfig,
        ActionModel::ReloadWebServer,
    ]);
    lemma_apply_write_write_from(existing, w1, w2, tail);
    assert(apply_actions(existing, append_actions(d, existing)) == (existing + w1) + w2);
    assert((existing + w1) + w2 =~= existing + nginx_redirect(d) + "\n"@ + nginx_https(d)
        + "\n"@);
}

/// Replaying two writes followed by inspection-only actions appends
/// both texts to the given content.
proof fn lemma_apply_write_write_from(
    content: Seq<char>,
    w1: Seq<char>,
    w2: Seq<char>,
    post: Seq<ActionModel>,
)
    requires
        post.len() >= 2,
        post[0] == ActionModel::WriteConfigText(w1),
        post[1] == ActionModel::WriteConfigText(w2),
        forall|i: int|
            2 <= i < post.len() ==> !((#[trigger] post[i]) is WriteConfigText) && !(post[i]
                is TruncateConfigFile),
    ensures
        apply_actions(content, post) == (content + w1) + w2,
{
    let rest = post.skip(2);
    assert(post.drop_first().drop_first() =~= rest);
    assert(post.drop_first().first() == post[1]);
    assert(apply_actions(content, post) == apply_actions(content + w1, post.drop_first()));
    assert(apply_actions(content + w1, post.drop_first()) == apply_actions(
        (content + w1) + w2,
        rest,
    ));
    lemma_apply_untouched((content + w1) + w2, rest);
}

/// Law: when the file already declares the domain, the planned run
/// only backs the file up, and the content is unchanged.
pub proof fn lemma_declared_run_is_noop(d: DomainView, existing: Seq<char>)
    requires
        declares(existing, nginx_needle(d)),
    ensures
        append_actions(d, existing) == seq![ActionModel::BackupConfigFile],
        apply_actions(existing, append_actions(d, existing)) == existing,
{
    let acts = append_actions(d, existing);
    assert(acts.first() == ActionModel::BackupConfigFile);
    assert(acts.drop_first() =~= Seq::<ActionModel>::empty());
    assert(action_step(existing, ActionModel::BackupConfigFile) == existing);
    assert(apply_actions(existing, Seq::<ActionModel>::empty()) == existing);
}

/// Law: after a full create run, planning a run for the same domain
/// again is a backup-only no-op that leaves the final file content
/// unchanged.
pub proof fn lemma_create_then_append_is_noop(d: DomainView)
    requires
        d.wf(),
    ensures
        ({
            let once = apply_actions(Seq::empty(), create_actions(d));
            &&& declares(once, nginx_needle(d))
            &&& append_actions(d, once) == seq![ActionModel::BackupConfigFile]
            &&& apply_actions(once, append_actions(d, once)) == once
        }),
{
    lemma_create_content(d);
    let once = apply_actions(Seq::empty(), create_actions(d));
    lemma_provisioned_declares(Seq::empty(), d);
    assert(once =~= Seq::<char>::empty() + nginx_redirect(d) + "\n"@ + nginx_https(d) + "\n"@);
    lemma_declared_run_is_noop(d, once);
}

/// Law: after a full append run, planning a run for the same domain
/// again is a backup-only no-op that leaves the final file content
/// unchanged.
pub proof fn lemma_append_then_append_is_noop(d: DomainView, existing: Seq<char>)
    requires
        d.wf(),
        !declares(existing, nginx_needle(d)),
    ensures
        ({
            let once = apply_actions(existing, append_actions(d, existing));
            &&& declares(once, nginx_needle(d))
            &&& append_actions(d, once) == seq![ActionModel::BackupConfigFile]
            &&& apply_actions(once, append_actions(d, once)) == once
        }),
{
    lemma_append_content(d, existing);
    let once = apply_actions(existing, append_actions(d, existing));
    lemma_provisioned_declares(existing, d);
    lemma_declared_run_is_noop(d, once);
}

pub struct Configurator;

impl Configurator {
    /// The preflight predicate over the two binary probes.
    pub fn are_nginx_and_certbot_installed(
        nginx_installed: bool,
        certbot_installed: bool,
    ) -> (r: bool)
        ensures
            r == (nginx_installed && certbot_installed),
    {
        nginx_installed && certbot_installed
    }

    /// Plans the create workflow for a domain without a configuration
    /// file, activating the new file through its symlink.
    pub fn create_file_and_link(domain: &Domain) -> (r: Vec<Action>)
        ensures
            r.deep_view() == create_actions(domain@),
    {
        let mut plan: Vec<Action> = Vec::new();
        plan.push(Action::CreateConfigFile);
        plan.push(Action::ChownConfigFile);
        plan.push(Action::CreateSymlink(domain.conf_file_name()));
        let mut wk = HttpConfig::http_well_known(domain);
        wk.append("\n");
        plan.push(Action::WriteConfigText(wk));
        plan.push(Action::CreateWebRoot);
        plan.push(Action::ValidateConfig);
        plan.push(Action::ReloadWebServer);
        plan.push(Action::IssueCertificate(domain.to_string()));
        plan.push(Action::TruncateConfigFile);
        let mut red = HttpConfig::http_redirect_content(domain);
        red.append("\n");
        plan.push(Action::WriteConfigText(red));
        let mut https = HttpConfig::https_content(domain);
        https.append("\n");
        plan.push(Action::WriteConfigText(https));
        plan.push(Action::ValidateConfig);
        plan.push(Action::ReloadWebServer);
        proof {
            assert(plan.deep_view() =~~= create_actions(domain@));
        }
        plan
    }

    /// Plans the append workflow against the existing file content.
    pub fn append(domain: &Domain, existing: &str) -> (r: Vec<Action>)
        ensures
            r.deep_view() == append_actions(domain@, existing@),
    {
        let mut plan: Vec<Action> = Vec::new();
        plan.push(Action::BackupConfigFile);
        if !ConfigFile::find_domain_in_str(existing, domain) {
            let mut wk = HttpConfig::http_well_known(domain);
            wk.append("\n");
            plan.push(Action::WriteConfigText(wk));
            plan.push(Action::CreateWebRoot);
            plan.push(Action::ValidateConfig);
            plan.push(Action::ReloadWebServer);
            plan.push(Action::IssueCertificate(domain.to_string()));
            plan.push(Action::TruncateConfigFile);
            plan.push(Action::WriteConfigText(String::from_str(existing)));
            let mut red = HttpConfig::http_redirect_content(domain);
            red.append("\n");
            plan.push(Action::WriteConfigText(red));
            let mut https = HttpConfig::https_content(domain);
            https.append("\n");
            plan.push(Action::WriteConfigText(https));
            plan.push(Action::ValidateConfig);
            plan.push(Action::ReloadWebServer);
        }
        proof {
            assert(plan.deep_view() =~~= append_actions(domain@, existing@));
        }
        plan
    }

    /// The whole run: refuses to plan anything while a required tool
    /// is missing, then picks the create or append workflow from
    /// whether a configuration file was found.
    pub fn append_or_create(
        domain: &Domain,
        existing: Option<&str>,
        nginx_installed: bool,
        certbot_installed: bool,
    ) -> (r: Result<Vec<Action>, ProvisionError>)
        ensures
            r is Ok <==> nginx_installed && certbot_installed,
            r matches Err(e) ==> e == ProvisionError::MissingDependencies,
            nginx_installed && certbot_installed && existing is None ==> r is Ok
                && r->Ok_0.deep_view() == create_actions(domain@),
            existing matches Some(c) ==> (nginx_installed && certbot_installed ==> r is Ok
                && r->Ok_0.deep_view() == append_actions(domain@, c@)),
    {
        if !Self::are_nginx_and_certbot_installed(nginx_installed, certbot_installed) {
            return Err(ProvisionError::MissingDependencies);
        }
        match existing {
            None => Ok(Self::create_file_and_link(domain)),
            Some(content) => Ok(Self::append(domain, content)),
        }
    }
}

} // verus!
