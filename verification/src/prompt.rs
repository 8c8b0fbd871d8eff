//! The lock interface: which program is started on the locked terminal and
//! with which arguments, how the password prompt reacts to what happens, and
//! how its colours are set.
use vstd::prelude::*;

verus! {

/// `system-auth`, the PAM service that checks the password.
pub open spec fn auth_service_spec() -> Seq<char> {
    seq!['s', 'y', 's', 't', 'e', 'm', '-', 'a', 'u', 't', 'h']
}

/// `spookylock-interface`, the interface program started by default.
pub open spec fn default_interface_spec() -> Seq<char> {
    seq![
        's', 'p', 'o', 'o', 'k', 'y', 'l', 'o', 'c', 'k', '-',
        'i', 'n', 't', 'e', 'r', 'f', 'a', 'c', 'e',
    ]
}

/// `--user`, the option that names the user to the interface program.
pub open spec fn user_flag_spec() -> Seq<char> {
    seq!['-', '-', 'u', 's', 'e', 'r']
}

/// The PAM service that checks the password.
pub fn auth_service() -> (s: &'static str)
    ensures
        s@ == auth_service_spec(),
{
    proof { reveal_strlit("system-auth"); }
    "system-auth"
}

/// What the locker is told on its command line.
pub struct Options {
    /// Whether `interface_path` is a path to resolve rather than a program
    /// name to look up on `$PATH`.
    pub relative_interface: bool,
    /// The interface program.
    pub interface_path: String,
}

impl Default for Options {
    fn default() -> (o: Options)
        ensures
            !o.relative_interface,
            o.interface_path@ == default_interface_spec(),
    {
        proof { reveal_strlit("spookylock-interface"); }
        Options { relative_interface: false, interface_path: String::from_str("spookylock-interface") }
    }
}

/// The interface program to start.
pub enum InterfaceProgram {
    /// A path that is to be made absolute first (it must exist).
    Resolve(String),
    /// A program to start as named.
    Use(String),
}

impl Options {
    /// The interface program these options name.
    pub fn interface_program(&self) -> (p: InterfaceProgram)
        ensures
            self.relative_interface ==> (p matches InterfaceProgram::Resolve(s) && s@ == self.interface_path@),
            !self.relative_interface ==> (p matches InterfaceProgram::Use(s) && s@ == self.interface_path@),
    {
        if self.relative_interface {
            InterfaceProgram::Resolve(self.interface_path.clone())
        } else {
            InterfaceProgram::Use(self.interface_path.clone())
        }
    }
}

/// The arguments of the interface program: `--user <user>`.
pub fn interface_args(user: &str) -> (args: Vec<String>)
    ensures
        args.len() == 2,
        args[0]@ == user_flag_spec(),
        args[1]@ == user@,
{
    proof { reveal_strlit("--user"); }
    let mut args: Vec<String> = Vec::new();
    args.push(String::from_str("--user"));
    args.push(String::from_str(user));
    args
}

/// Something that happened at the password prompt.
pub enum PromptEvent {
    /// A password was entered.
    Submit(String),
    /// The user asked to clear the line (Ctrl-U).
    ClearLine,
    /// The authentication service could not be started.
    AuthUnavailable,
    /// The authentication service answered; `true` when the password is right.
    AuthResult(bool),
}

/// What the prompt asks for in answer.
pub enum PromptAction {
    /// Check `password` for `user` with the PAM `service`.
    Authenticate { service: &'static str, user: String, password: String },
    /// Unlock: end the interface.
    Quit,
    /// Empty the password field.
    ClearPassword,
    /// Nothing changes.
    Ignore,
}

/// The password prompt of a locked session for one user.
pub struct LockPrompt {
    pub user: String,
}

impl LockPrompt {
    pub fn new(user: String) -> (p: LockPrompt)
        ensures
            p.user@ == user@,
    {
        LockPrompt { user }
    }

    /// The prompt's answer to an event. A submitted password is checked for
    /// the prompt's user; only a right password unlocks, a wrong one empties
    /// the field, and an unavailable service changes nothing.
    pub fn handle(&self, event: PromptEvent) -> (a: PromptAction)
        ensures
            a is Quit <==> event == PromptEvent::AuthResult(true),
            event matches PromptEvent::Submit(pw) ==> (a matches PromptAction::Authenticate {
                service,
                user,
                password,
            } && service@ == auth_service_spec() && user@ == self.user@ && password@ == pw@),
            event is ClearLine ==> a is ClearPassword,
            event == PromptEvent::AuthResult(false) ==> a is ClearPassword,
            event is AuthUnavailable ==> a is Ignore,
    {
        match event {
            PromptEvent::Submit(password) => PromptAction::Authenticate {
                service: auth_service(),
                user: self.user.clone(),
                password,
            },
            PromptEvent::ClearLine => PromptAction::ClearPassword,
            PromptEvent::AuthUnavailable => PromptAction::Ignore,
            PromptEvent::AuthResult(ok) => if ok {
                PromptAction::Quit
            } else {
                PromptAction::ClearPassword
            },
        }
    }
}

/// The colours of the four palette roles the interface sets.
#[derive(Debug, Clone, Copy)]
pub struct PaletteRoles<C> {
    pub background: C,
    pub shadow: C,
    pub primary: C,
    pub secondary: C,
}

/// Which of the two original colours the shadow takes.
#[derive(Debug, Clone, Copy, PartialEq, Eq, Structural)]
pub enum ShadowColour {
    Background,
    Primary,
}

/// The inverted palette of the lock screen: the background takes the text
/// colour and the text the background colour; the secondary colour is the
/// text colour.
pub fn locked_palette<C: Copy>(background: C, primary: C, shadow: ShadowColour) -> (p: PaletteRoles<C>)
    ensures
        p.background == primary,
        p.primary == background,
        p.secondary == primary,
        p.shadow == (if shadow == ShadowColour::Primary { primary } else { background }),
{
    let s = match shadow {
        ShadowColour::Primary => primary,
        ShadowColour::Background => background,
    };
    PaletteRoles { background: primary, shadow: s, primary: background, secondary: primary }
}

} // verus!
