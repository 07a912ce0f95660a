//! `git x completion-install <shell>`: where a shell's completion file goes,
//! what it is called, and what the user is told afterwards. Which directories
//! exist, creating them, generating the script and writing it happen outside.
use vstd::prelude::*;
use crate::base::text::owned;
use crate::{GitXError, Result};

verus! {

/// The shells that completion can be generated for.
#[derive(Clone, Copy, Debug, PartialEq, Eq, Structural)]
pub enum CompletionShell {
    Bash,
    Zsh,
    Fish,
    PowerShell,
    Elvish,
}

/// The directory that receives the completion file, whether it must be
/// created first, and how a failure to create it is reported (the prefix
/// that the system's error follows).
pub struct CompletionDirPlan {
    pub dir: String,
    pub create: bool,
    pub create_error_prefix: String,
}

/// The directories tried in order for `shell` under `home`; a fallback
/// (created when needed) follows if none of them can be used.
pub open spec fn candidates(shell: CompletionShell, home: Seq<char>) -> Seq<Seq<char>> {
    match shell {
        CompletionShell::Bash => seq![
            home + "/.local/share/bash-completion/completions"@,
            home + "/.bash_completion.d"@,
        ],
        CompletionShell::Zsh => seq![
            home + "/.local/share/zsh/site-functions"@,
            home + "/.zsh/completions"@,
        ],
        _ => Seq::empty(),
    }
}

/// The directory created when no candidate's parent exists.
pub open spec fn fallback(shell: CompletionShell, home: Seq<char>) -> Seq<char> {
    match shell {
        CompletionShell::Bash => home + "/.local/share/bash-completion/completions"@,
        CompletionShell::Zsh => home + "/.local/share/zsh/site-functions"@,
        _ => home + "/.config/fish/completions"@,
    }
}

/// The answer at position `i`, absent answers counting as "no".
pub open spec fn answer(v: Seq<bool>, i: int) -> bool {
    0 <= i < v.len() && v[i]
}

/// The first candidate whose parent directory exists, if any.
pub open spec fn first_usable(n: int, parent_exists: Seq<bool>) -> Option<int> {
    if answer(parent_exists, 0) && 0 < n {
        Some(0)
    } else if answer(parent_exists, 1) && 1 < n {
        Some(1)
    } else {
        None
    }
}

/// The message for a shell whose completion cannot be installed here.
pub open spec fn unsupported_message(shell: CompletionShell) -> Seq<char> {
    match shell {
        CompletionShell::PowerShell => "PowerShell completion installation not supported. Use 'git x completion powershell' and add to your profile manually."@,
        _ => "Elvish completion installation not supported. Use 'git x completion elvish' and add to rc.elv manually."@,
    }
}

/// What follows the installed path in the setup instructions for `shell`.
pub open spec fn setup_tail(shell: CompletionShell) -> Seq<char> {
    match shell {
        CompletionShell::Bash => "\n\nTo enable bash completions, add this to your ~/.bashrc or ~/.bash_profile:\nif [[ -d ~/.local/share/bash-completion/completions ]]; then\nfor completion in ~/.local/share/bash-completion/completions/*; do\n[[ -r \"$completion\" ]] && source \"$completion\"\ndone\nfi\n\nThen restart your shell or run: source ~/.bashrc"@,
        CompletionShell::Zsh => "\n\nTo enable zsh completions, add this to your ~/.zshrc:\nif [[ -d ~/.local/share/zsh/site-functions ]]; then\nfpath=(~/.local/share/zsh/site-functions $fpath)\nautoload -U compinit && compinit\nfi\n\nThen restart your shell or run: source ~/.zshrc\nYou may also need to clear the completion cache: rm -f ~/.zcompdump*"@,
        CompletionShell::Fish => "\n\nFish completions are automatically loaded from ~/.config/fish/completions/\nRestart your shell or run: fish -c 'complete --erase; source ~/.config/fish/config.fish'"@,
        _ => Seq::empty(),
    }
}

/// `home` followed by `suffix`.
fn under(home: &str, suffix: &str) -> (r: String)
    ensures
        r@ == home@ + suffix@,
{
    let mut r = owned(home);
    r.append(suffix);
    r
}

/// The directories tried in order for `shell` under `home`.
pub fn completion_candidates(shell: CompletionShell, home: &str) -> (r: Vec<String>)
    ensures
        r@.len() == candidates(shell, home@).len(),
        forall|i: int| 0 <= i < r@.len() ==> #[trigger] r@[i]@ == candidates(shell, home@)[i],
{
    let mut r: Vec<String> = Vec::new();
    match shell {
        CompletionShell::Bash => {
            r.push(under(home, "/.local/share/bash-completion/completions"));
            r.push(under(home, "/.bash_completion.d"));
        },
        CompletionShell::Zsh => {
            r.push(under(home, "/.local/share/zsh/site-functions"));
            r.push(under(home, "/.zsh/completions"));
        },
        _ => {},
    }
    r
}

/// Where the completion file for `shell` goes. Without a home directory
/// nothing can be installed. For bash and zsh the first candidate whose
/// parent exists is used, created when it does not exist yet
/// (`dir_exists[i]` answers for candidate `i`); when no parent exists, the
/// standard directory is created. Fish always uses (and creates)
/// `~/.config/fish/completions`. PowerShell and Elvish are refused with a
/// hint to install by hand.
pub fn completion_directory(
    shell: CompletionShell,
    home: Option<String>,
    parent_exists: Vec<bool>,
    dir_exists: Vec<bool>,
) -> (r: Result<CompletionDirPlan>)
    ensures
        home is None ==> (r matches Err(GitXError::Other(m)) && m@ == "HOME environment variable not set"@),
        home matches Some(h) ==> match shell {
            CompletionShell::PowerShell | CompletionShell::Elvish =>
                (r matches Err(GitXError::Other(m)) && m@ == unsupported_message(shell)),
            _ => (r matches Ok(p) && match first_usable(candidates(shell, h@).len() as int, parent_exists@) {
                Some(i) => p.dir@ == candidates(shell, h@)[i] && p.create == !answer(dir_exists@, i)
                    && p.create_error_prefix@ == "Failed to create directory "@ + candidates(shell, h@)[i] + ": "@,
                None => p.dir@ == fallback(shell, h@) && p.create
                    && p.create_error_prefix@ == (if shell is Fish {
                        "Failed to create fish completions directory: "@
                    } else {
                        "Failed to create completion directory: "@
                    }),
            }),
        },
{
    let h = match home {
        Some(h) => h,
        None => return Err(GitXError::Other(owned("HOME environment variable not set"))),
    };
    match shell {
        CompletionShell::PowerShell => {
            return Err(GitXError::Other(owned(
                "PowerShell completion installation not supported. Use 'git x completion powershell' and add to your profile manually.",
            )));
        },
        CompletionShell::Elvish => {
            return Err(GitXError::Other(owned(
                "Elvish completion installation not supported. Use 'git x completion elvish' and add to rc.elv manually.",
            )));
        },
        CompletionShell::Fish => {
            return Ok(CompletionDirPlan {
                dir: under(h.as_str(), "/.config/fish/completions"),
                create: true,
                create_error_prefix: owned("Failed to create fish completions directory: "),
            });
        },
        _ => {},
    }
    let dirs = completion_candidates(shell, h.as_str());
    let mut i: usize = 0;
    while i < dirs.len()
        invariant
            dirs@.len() == candidates(shell, h@).len(),
            dirs@.len() == 2,
            forall|k: int| 0 <= k < dirs@.len() ==> #[trigger] dirs@[k]@ == candidates(shell, h@)[k],
            0 <= i <= 2,
            home == Some(h),
            shell is Bash || shell is Zsh,
            forall|k: int| 0 <= k < i ==> !answer(parent_exists@, k),
        decreases 2 - i,
    {
        if i < parent_exists.len() && parent_exists[i] {
            let create = !(i < dir_exists.len() && dir_exists[i]);
            let mut prefix = owned("Failed to create directory ");
            prefix.append(dirs[i].as_str());
            prefix.append(": ");
            return Ok(CompletionDirPlan { dir: owned(dirs[i].as_str()), create, create_error_prefix: prefix });
        }
        i = i + 1;
    }
    let dir = if shell == CompletionShell::Bash {
        under(h.as_str(), "/.local/share/bash-completion/completions")
    } else {
        under(h.as_str(), "/.local/share/zsh/site-functions")
    };
    Ok(CompletionDirPlan { dir, create: true, create_error_prefix: owned("Failed to create completion directory: ") })
}

/// The message for a completion file that could not be written to `path`
/// (the system's error follows it).
pub fn write_failure_prefix(path: &str) -> (r: String)
    ensures
        r@ == "Failed to write completion file to "@ + path@ + ": "@,
{
    let mut r = owned("Failed to write completion file to ");
    r.append(path);
    r.append(": ");
    r
}

/// Installs the completion file for one shell.
pub struct CompletionInstallCommand {
    pub shell: CompletionShell,
}

impl CompletionInstallCommand {
    pub fn new(shell: CompletionShell) -> (r: Self)
        ensures
            r.shell == shell,
    {
        CompletionInstallCommand { shell }
    }

    /// The completion file's name: `_git-x` for zsh, `git-x.fish` for fish,
    /// `git-x` otherwise.
    pub fn get_completion_filename(&self) -> (r: &'static str)
        ensures
            r@ == match self.shell {
                CompletionShell::Zsh => "_git-x"@,
                CompletionShell::Fish => "git-x.fish"@,
                _ => "git-x"@,
            },
    {
        match self.shell {
            CompletionShell::Zsh => "_git-x",
            CompletionShell::Fish => "git-x.fish",
            _ => "git-x",
        }
    }

    /// How to enable the completion installed at `completion_path`.
    pub fn get_shell_setup_instructions(&self, completion_path: &str) -> (r: String)
        ensures
            r@ == "Completion installed to: "@ + completion_path@ + setup_tail(self.shell),
    {
        let mut r = owned("Completion installed to: ");
        r.append(completion_path);
        match self.shell {
            CompletionShell::Bash => r.append("\n\nTo enable bash completions, add this to your ~/.bashrc or ~/.bash_profile:\nif [[ -d ~/.local/share/bash-completion/completions ]]; then\nfor completion in ~/.local/share/bash-completion/completions/*; do\n[[ -r \"$completion\" ]] && source \"$completion\"\ndone\nfi\n\nThen restart your shell or run: source ~/.bashrc"),
            CompletionShell::Zsh => r.append("\n\nTo enable zsh completions, add this to your ~/.zshrc:\nif [[ -d ~/.local/share/zsh/site-functions ]]; then\nfpath=(~/.local/share/zsh/site-functions $fpath)\nautoload -U compinit && compinit\nfi\n\nThen restart your shell or run: source ~/.zshrc\nYou may also need to clear the completion cache: rm -f ~/.zcompdump*"),
            CompletionShell::Fish => r.append("\n\nFish completions are automatically loaded from ~/.config/fish/completions/\nRestart your shell or run: fish -c 'complete --erase; source ~/.config/fish/config.fish'"),
            _ => {},
        }
        proof {
            if !(self.shell is Bash || self.shell is Zsh || self.shell is Fish) {
                assert(r@ =~= "Completion installed to: "@ + completion_path@ + setup_tail(self.shell));
            }
        }
        r
    }

    /// The report after the file was written to `completion_path`.
    pub fn install_report(&self, completion_path: &str) -> (r: String)
        ensures
            r@ == "✅ Shell completion installed successfully!\n\n"@ + "Completion installed to: "@
                + completion_path@ + setup_tail(self.shell),
    {
        let t = self.get_shell_setup_instructions(completion_path);
        let mut r = owned("✅ Shell completion installed successfully!\n\n");
        r.append(t.as_str());
        r
    }

    pub fn name(&self) -> (r: &'static str)
        ensures
            r@ == "completion-install"@,
    {
        "completion-install"
    }

    pub fn description(&self) -> (r: &'static str)
        ensures
            r@ == "Install shell completion to standard location"@,
    {
        "Install shell completion to standard location"
    }
}

} // verus!
