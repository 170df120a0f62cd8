//! What holds of the discovery and the start of every provider.

use crate::acp::error::AcpErrorView;
use crate::providers::discovery::{
    ascii_lower, batch_file, first_line, inspected, places, searched, suffixes_of, FindingsView,
    ResolvedProviderView, SearchDirectoryView, SetupIssueView,
};
use crate::providers::driver::{
    error_meaning, major_version, node_check, number_of, value_of, ProviderErrorView,
};
use crate::providers::{
    action_of, LaunchTargetView, ProviderProfileView, ACP_STDIO_DRIVER,
};
use crate::text::{blank, decimal, first_index, trimmed, up_to};
use vstd::prelude::*;
use vstd::utf8::{decode_utf8, encode_utf8, valid_utf8};

verus! {

/// A provider that runs under Node is started as the Node that was found, with the path of
/// its script before the arguments of its definition. Any other is started as the file
/// that was chosen or found, with the arguments of its definition alone. Either way the
/// environment is that of the profile.
pub proof fn launches_run_the_chosen_file(profile: ProviderProfileView, findings: FindingsView)
    requires
        inspected(profile, findings).1 is Some,
    ensures
        ({
            let report = inspected(profile, findings).0;
            let resolved = inspected(profile, findings).1->0;
            let launch = resolved.launch;
            let own = profile.definition.args;
            let path = report.entrypoint->0;
            &&& report.entrypoint is Some
            &&& profile.target matches LaunchTargetView::Executable(chosen) ==> path == chosen
            &&& profile.target matches LaunchTargetView::NodeScript(chosen) ==> path == chosen
            &&& profile.target is Discover ==> findings.command == Some(path)
            &&& profile.target is NodeScript ==> resolved.node_runtime is Some
            &&& report.runtime == resolved.node_runtime
            &&& resolved.definition == profile.definition
            &&& launch.env == profile.env
            &&& match resolved.node_runtime {
                Some(node) => {
                    &&& findings.node == Some(node)
                    &&& launch.executable == node
                    &&& launch.args.len() == own.len() + 1
                    &&& valid_utf8(path.bytes)
                    &&& encode_utf8(launch.args[0]) == path.bytes
                    &&& forall|i: int|
                        0 <= i < own.len() ==> #[trigger] launch.args[i + 1] == own[i]
                },
                None => launch.executable == path && launch.args == own,
            }
        }),
{
    let resolved = inspected(profile, findings).1->0;
    let path = inspected(profile, findings).0.entrypoint->0;
    if resolved.node_runtime is Some {
        vstd::utf8::decode_utf8_encode_utf8(path.bytes);
    }
    assert(resolved.launch.args =~= resolved.launch.args.take(
        resolved.launch.args.len() - profile.definition.args.len(),
    ) + profile.definition.args);
}

proof fn lines_end_at_their_first_break(line: Seq<u8>, rest: Seq<u8>)
    requires
        forall|i: int| 0 <= i < line.len() ==> #[trigger] line[i] != 10,
        rest.len() == 0 || rest[0] == 10,
    ensures
        first_line(line + rest) == line,
    decreases line.len(),
{
    if line.len() == 0 {
        assert(line + rest =~= rest);
        assert(first_line(rest) =~= line);
    } else {
        assert((line + rest)[0] == line[0]);
        assert((line + rest).skip(1) =~= line.skip(1) + rest);
        assert forall|i: int| 0 <= i < line.skip(1).len() implies #[trigger] line.skip(1)[i]
            != 10 by {
            assert(line[i + 1] != 10);
        }
        lines_end_at_their_first_break(line.skip(1), rest);
        assert(seq![line[0]] + line.skip(1) =~= line);
    }
}

/// A file that is started runs under Node exactly if it was chosen as a script for Node or
/// its first line, but for the white space around it, is one of three.
pub proof fn scripts_for_node_are_told_by_their_first_line(
    profile: ProviderProfileView,
    findings: FindingsView,
    line: Seq<u8>,
    rest: Seq<u8>,
)
    requires
        inspected(profile, findings).1 is Some,
        findings.entry.prefix == Some(line + rest),
        forall|i: int| 0 <= i < line.len() ==> #[trigger] line[i] != 10,
        rest.len() == 0 || rest[0] == 10,
    ensures
        ({
            let text = trimmed(decode_utf8(line));
            inspected(profile, findings).1->0.node_runtime is Some <==> profile.target is NodeScript
                || (valid_utf8(line) && (text == "#!/usr/bin/env node"@ || text
                == "#!/usr/bin/node"@ || text == "#!/usr/local/bin/node"@))
        }),
{
    lines_end_at_their_first_break(line, rest);
}

/// A provider can be started exactly if its profile is complete, its file is there and can
/// be run, and Node is there if it is needed: whatever of it is missing is the issue that
/// is reported.
pub proof fn missing_parts_are_reported(profile: ProviderProfileView, findings: FindingsView)
    ensures
        ({
            let issues = inspected(profile, findings).0.issues;
            let resolved = inspected(profile, findings).1;
            let incomplete = blank(profile.definition.id) || blank(profile.definition.driver)
                || blank(profile.scope);
            let path = match profile.target {
                LaunchTargetView::Discover => findings.command,
                LaunchTargetView::Executable(chosen) => Some(chosen),
                LaunchTargetView::NodeScript(chosen) => Some(chosen),
            };
            let entry = findings.entry;
            &&& incomplete ==> resolved is None && issues.len() == 1 && issues[0] is InvalidProfile
            &&& !incomplete && path is None ==> resolved is None && issues.len() == 1
                && match issues[0] {
                SetupIssueView::MissingAdapter(command) => profile.definition.adapter_required
                    && command == profile.definition.command,
                SetupIssueView::MissingCli(command) => !profile.definition.adapter_required
                    && command == profile.definition.command,
                _ => false,
            }
            &&& !incomplete && path is Some && !entry.absolute ==> resolved is None && issues[0]
                == SetupIssueView::InvalidPath(path->0)
            &&& !incomplete && path is Some && entry.absolute && !entry.file ==> resolved is None
                && issues[0] == SetupIssueView::MissingFile(path->0)
            &&& !incomplete && path is Some && entry.absolute && entry.file && !entry.executable
                && !(profile.target is NodeScript) ==> resolved is None && issues[0]
                == SetupIssueView::NotExecutable(path->0)
            &&& resolved is Some ==> !incomplete && path is Some && entry.absolute && entry.file && (
            entry.executable || profile.target is NodeScript) && !batch_file(entry.extension)
                && entry.prefix is Some && issues.len() == 0
            &&& !incomplete && path is Some && entry.absolute && entry.file && (entry.executable
                || profile.target is NodeScript) && !batch_file(entry.extension)
                && entry.prefix is Some && resolved is None ==> findings.node is None || !valid_utf8(
                path->0.bytes,
            )
            &&& !incomplete && path is Some && entry.absolute && entry.file && (entry.executable
                || profile.target is NodeScript) && batch_file(entry.extension) ==> issues[0]
                == SetupIssueView::UnsupportedLauncher(path->0)
            &&& !incomplete && path is Some && entry.absolute && entry.file && (entry.executable
                || profile.target is NodeScript) && !batch_file(entry.extension)
                && entry.prefix is None ==> issues[0] == SetupIssueView::Unreadable(path->0)
            &&& resolved is None && findings.node is None && profile.target is NodeScript && !incomplete
                && entry.absolute && entry.file && !batch_file(entry.extension) && entry.prefix is Some
                ==> issues[0] == SetupIssueView::MissingRuntime("node"@)
        }),
{
}

/// The report names the provider as it is defined, and the command line program only if
/// the definition has one.
pub proof fn reports_name_their_provider(profile: ProviderProfileView, findings: FindingsView)
    ensures
        ({
            let report = inspected(profile, findings).0;
            &&& report.provider == profile.definition.id
            &&& report.driver == profile.definition.driver
            &&& report.setup == profile.definition.setup
            &&& profile.definition.standalone_cli is Some ==> report.standalone_cli
                == findings.standalone_cli
            &&& profile.definition.standalone_cli is None ==> report.standalone_cli is None
        }),
{
}

/// Batch files, which cannot be started without a shell, are those with one of two
/// endings, however they are capitalized.
pub proof fn batch_files_are_told_by_their_ending(extension: Seq<char>)
    ensures
        batch_file(Some(extension)) <==> extension.len() == 3 && (((extension[0] == 'c'
            || extension[0] == 'C') && (extension[1] == 'm' || extension[1] == 'M') && (
        extension[2] == 'd' || extension[2] == 'D')) || ((extension[0] == 'b' || extension[0]
            == 'B') && (extension[1] == 'a' || extension[1] == 'A') && (extension[2] == 't'
            || extension[2] == 'T'))),
        !batch_file(None),
{
    reveal_strlit("cmd");
    reveal_strlit("bat");
    assert("cmd"@[0] == 'c' && "cmd"@[1] == 'm' && "cmd"@[2] == 'd');
    assert("bat"@[0] == 'b' && "bat"@[1] == 'a' && "bat"@[2] == 't');
    if extension.len() == 3 {
        assert(forall|i: int|
            0 <= i < 3 ==> (ascii_lower(#[trigger] extension[i]) == extension[i] || 'A'
                <= extension[i] <= 'Z'));
    }
}

/// No absolute directory is left out of a search, whether it is named once or more often,
/// and a directory that is searched was named.
pub proof fn absolute_directories_are_searched(directories: Seq<SearchDirectoryView>, i: int)
    requires
        0 <= i < directories.len(),
        directories[i].absolute,
    ensures
        exists|j: int|
            0 <= j < searched(directories).len() && (#[trigger] searched(directories)[j]).canonical
                == directories[i].canonical,
        forall|j: int|
            0 <= j < searched(directories).len() ==> directories.contains(
                #[trigger] searched(directories)[j],
            ),
    decreases directories.len(),
{
    searched_directories_were_named(directories);
    let before = directories.drop_last();
    let kept = searched(before);
    let all = searched(directories);
    if i < before.len() {
        assert(before[i] == directories[i]);
        absolute_directories_are_searched(before, i);
        let j = choose|j: int|
            0 <= j < kept.len() && (#[trigger] kept[j]).canonical == directories[i].canonical;
        assert(all[j] == kept[j]);
    } else if all != kept {
        assert(all[kept.len() as int] == directories.last());
    } else {
        let j = choose|j: int|
            0 <= j < kept.len() && (#[trigger] kept[j]).canonical == directories.last().canonical;
        assert(all[j].canonical == directories[i].canonical);
    }
}

proof fn searched_directories_were_named(directories: Seq<SearchDirectoryView>)
    ensures
        forall|j: int|
            0 <= j < searched(directories).len() ==> directories.contains(
                #[trigger] searched(directories)[j],
            ),
    decreases directories.len(),
{
    if directories.len() > 0 {
        let before = directories.drop_last();
        searched_directories_were_named(before);
        let kept = searched(before);
        let all = searched(directories);
        assert forall|j: int| 0 <= j < all.len() implies directories.contains(
            #[trigger] all[j],
        ) by {
            if j < kept.len() {
                assert(all[j] == kept[j]);
                let k = choose|k: int| 0 <= k < before.len() && before[k] == kept[j];
                assert(directories[k] == all[j]);
            } else {
                assert(directories[directories.len() - 1] == all[j]);
            }
        }
    }
}

/// A program is looked for in every directory in turn, under its name with every ending
/// in turn.
pub proof fn places_follow_the_directories(
    directories: Seq<SearchDirectoryView>,
    directory: SearchDirectoryView,
    name: Seq<char>,
    suffixes: Seq<Seq<char>>,
)
    ensures
        places(Seq::empty(), name, suffixes).len() == 0,
        ({
            let before = places(directories, name, suffixes);
            let all = places(directories.push(directory), name, suffixes);
            &&& all.len() == before.len() + suffixes.len()
            &&& forall|i: int| 0 <= i < before.len() ==> #[trigger] all[i] == before[i]
            &&& forall|i: int|
                0 <= i < suffixes.len() ==> (#[trigger] all[before.len() + i]).directory
                    == directory.path && all[before.len() + i].file_name == name + suffixes[i]
        }),
{
    assert(directories.push(directory).drop_last() =~= directories);
}

/// A program's own name is tried first, and on Windows then the endings of programs.
pub proof fn programs_are_tried_by_their_own_name_first(windows: bool)
    ensures
        suffixes_of(windows)[0].len() == 0,
        suffixes_of(windows).len() == if windows {
            5
        } else {
            1int
        },
        windows ==> suffixes_of(windows)[1] == ".exe"@ && suffixes_of(windows)[2] == ".com"@
            && suffixes_of(windows)[3] == ".cmd"@ && suffixes_of(windows)[4] == ".bat"@,
{
    reveal_strlit("");
}

/// An error of the agent means that its protocol is not spoken here, that its user has to
/// log in, or what it says.
pub proof fn errors_are_told_apart(error: AcpErrorView, auth_code: bool)
    ensures
        ({
            let meaning = error_meaning(error, auth_code);
            &&& meaning is IncompatibleProtocol <==> error is UnsupportedProtocolVersion
            &&& meaning is AuthenticationRequired <==> error is Protocol && auth_code
            &&& !(error is UnsupportedProtocolVersion) && !(error is Protocol && auth_code)
                ==> meaning == ProviderErrorView::Agent(error)
        }),
{
}

proof fn digits_give_back_the_number(n: nat)
    ensures
        value_of(decimal(n)) == n,
        decimal(n).len() > 0,
        forall|i: int| 0 <= i < decimal(n).len() ==> '0' <= #[trigger] decimal(n)[i] && decimal(n)[i]
            <= '9',
    decreases n,
{
    if n >= 10 {
        digits_give_back_the_number(n / 10);
        assert(decimal(n).drop_last() =~= decimal(n / 10));
        assert(decimal(n).last() as nat - 48 == n % 10);
        assert forall|i: int| 0 <= i < decimal(n).len() implies '0' <= #[trigger] decimal(n)[i]
            && decimal(n)[i] <= '9' by {
            if i < decimal(n / 10).len() {
                assert(decimal(n)[i] == decimal(n / 10)[i]);
            }
        }
    } else {
        assert(decimal(n).drop_last() =~= Seq::empty());
        assert(value_of(Seq::<char>::empty()) == 0);
        assert(decimal(n).last() as nat - 48 == n);
    }
}

proof fn texts_before_a_sign(s: Seq<char>, c: char, rest: Seq<char>)
    requires
        forall|i: int| 0 <= i < s.len() ==> #[trigger] s[i] != c,
    ensures
        first_index(s + seq![c] + rest, c) == s.len(),
    decreases s.len(),
{
    let all = s + seq![c] + rest;
    if s.len() == 0 {
        assert(all[0] == c);
    } else {
        assert(all[0] == s[0]);
        assert(all.skip(1) =~= s.skip(1) + seq![c] + rest);
        assert forall|i: int| 0 <= i < s.skip(1).len() implies #[trigger] s.skip(1)[i] != c by {
            assert(s[i + 1] != c);
        }
        texts_before_a_sign(s.skip(1), c, rest);
    }
}

/// The version that Node prints is read by its first number: whatever number stands
/// between the letter and the first dot is the one that is compared.
pub proof fn printed_versions_are_read(major: u32, rest: Seq<char>)
    requires
        ({
            let text = seq!['v'] + decimal(major as nat) + seq!['.'] + rest;
            trimmed(text) == text
        }),
    ensures
        major_version(encode_utf8(seq!['v'] + decimal(major as nat) + seq!['.'] + rest)) == Some(
            major,
        ),
{
    let digits = decimal(major as nat);
    let text = seq!['v'] + digits + seq!['.'] + rest;
    vstd::utf8::encode_utf8_valid_utf8(text);
    vstd::utf8::encode_utf8_decode_utf8(text);
    digits_give_back_the_number(major as nat);
    assert(text.skip(1) =~= digits + seq!['.'] + rest);
    texts_before_a_sign(digits, '.', rest);
    assert(up_to(text.skip(1), '.') =~= digits);
    assert(digits[0] != '+');
    assert(number_of(digits) == Some(major));
}

/// Nothing else that is printed is read as a version: it has to be UTF-8, begin with the
/// letter, and have nothing but digits between it and the first dot, a plus sign before them
/// aside.
pub proof fn nothing_else_is_read_as_a_version(bytes: Seq<u8>)
    ensures
        major_version(bytes) is Some ==> {
            let text = trimmed(decode_utf8(bytes));
            let part = up_to(text.skip(1), '.');
            &&& valid_utf8(bytes)
            &&& text.len() > 0 && text[0] == 'v'
            &&& part.len() > 0
            &&& part[0] == '+' ==> part.len() > 1
            &&& forall|i: int|
                0 <= i < part.len() && !(i == 0 && part[0] == '+') ==> '0' <= #[trigger] part[i]
                    && part[i] <= '9'
        },
{
    let text = trimmed(decode_utf8(bytes));
    let part = up_to(text.skip(1), '.');
    if major_version(bytes) is Some && part[0] == '+' {
        assert forall|i: int| 1 <= i < part.len() implies '0' <= #[trigger] part[i] && part[i]
            <= '9' by {
            assert(part.skip(1)[i - 1] == part[i]);
        }
    }
}

/// Node is asked for its version exactly if the provider runs under it and its definition
/// says how new it has to be.
pub proof fn node_is_checked_where_it_matters(provider: ResolvedProviderView)
    ensures
        node_check(provider) is Some <==> provider.node_runtime is Some
            && provider.definition.minimum_node_major is Some,
        node_check(provider) matches Some((node, minimum)) ==> provider.node_runtime == Some(node)
            && provider.definition.minimum_node_major == Some(minimum),
{
}

/// Something to do is told with the command that does it and with where it is documented.
pub proof fn actions_come_with_their_command(
    description: Seq<char>,
    command: Seq<char>,
    documentation: Seq<char>,
)
    ensures
        ({
            let action = action_of(description, command, documentation);
            action.description == description && action.command == Some(command)
                && action.documentation == documentation
        }),
        ACP_STDIO_DRIVER@ == "acp-stdio"@,
{
}

/// Everything that is kept for a provider is kept under its id and the scope of its profile,
/// each with its length before it.
pub proof fn launches_are_scoped_by_profile(profile: ProviderProfileView, findings: FindingsView)
    ensures
        inspected(profile, findings).1 matches Some(resolved) ==> resolved.launch.scope
            == "provider/"@ + decimal(encode_utf8(profile.definition.id).len()) + ":"@
            + profile.definition.id + "/profile/"@ + decimal(encode_utf8(profile.scope).len())
            + ":"@ + profile.scope,
{
}

} // verus!
