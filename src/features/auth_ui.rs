use vstd::prelude::*;
use crate::atoms::Atoms;
use crate::atoms::buttons::Buttons;
use crate::atoms::decorators::Decorators;
use crate::atoms::feedback::Feedbacks;
use crate::atoms::inputs::Inputs;
use crate::atoms::layout::Layouts;
use crate::component::{UiComponent, UiComponentView};
use crate::install::{Installable, Step, Unit};

verus! {

pub const AUTH_LIT: &'static str = r#"
import { AuthProvider } from "~/devano/features/auth/AuthState";
import AuthInner from "~/devano/features/auth/AuthInner";

export default function Auth() {
	return (
		<div>
			<AuthProvider>
				<AuthInner />
			</AuthProvider>
		</div>
	);
}
"#;

pub const AUTH_STATE_LIT: &'static str = r#"
import { createSignal, createContext, useContext } from "solid-js";
import { z } from "zod";
import type { JSX, ParentProps, Accessor, Setter } from "solid-js";
import type { ZodType } from "zod";

export enum ViewState {
	LogIn = "log-in",
	Register = "register",
	ResetPasswordRequest = "reset-password-request",
	ResetPasswordChallenge = "reset-password-challenge",
	ResetPasswordFinal = "reset-password-final",
}

type StateControl = {
	get: Accessor<any>;
	set: Setter<any>;
};

type AuthContextType = {
	view: () => ViewState;
	setViewTo: {
		login: () => void;
		register: () => void;
		resetpasswordreq: () => void;
		resetpasswordchallenge: () => void;
		resetpasswordfinal: () => void;
	};
	state: {
		email: StateControl;
		password: StateControl;
		passwordChallenge: StateControl;
		error: StateControl;
	};
	schema: {
		email: ZodType;
		password: ZodType;
	};
	magic: {
		code_length: number;
	};
};

const AuthContext = createContext<AuthContextType>();

export const AuthProvider = (props: any) => {
	const emailSchema = z.object({
		email: z.string().email(),
	});
	const passwordSchema = z.object({
		password: z.string().min(8, "Password must be at least 8 characters long"),
	});
	const challenge_code_length = 6; // fml magic numbers - updates to the challenge code generator need you to update this magic number too
	const [view, setView] = createSignal<ViewState>(ViewState.LogIn);
	const [email, set_email] = createSignal<string>();
	const [password, set_password] = createSignal<string>();
	const [passwordChallenge, set_passwordChallenge] = createSignal();
	// challenge code intentionally missing from state control due to unique OTP impl of auto-sending upon code insertion
	const [error, set_error] = createSignal<string | null>();
	const setViewTo = {
		login: () => setView(ViewState.LogIn),
		register: () => setView(ViewState.Register),
		resetpasswordreq: () => setView(ViewState.ResetPasswordRequest),
		resetpasswordchallenge: () => setView(ViewState.ResetPasswordChallenge),
		resetpasswordfinal: () => setView(ViewState.ResetPasswordFinal),
	};
	const state = {
		email: {
			get: email,
			set: set_email,
		},
		password: {
			get: password,
			set: set_password,
		},
		passwordChallenge: {
			get: passwordChallenge,
			set: set_passwordChallenge,
		},
		error: {
			get: error,
			set: set_error,
		},
	};
	const schema = {
		email: emailSchema,
		password: passwordSchema,
	};
	const magic = {
		code_length: challenge_code_length,
	};
	return (
		<AuthContext.Provider value={{ view, setViewTo, state, schema, magic }}>
			{props.children}
		</AuthContext.Provider>
	);
};

export const useAuth = () => {
	const context = useContext(AuthContext);
	if (!context) {
		throw new Error("useAuth must be used within an AuthProvider");
	}
	return context;
};
"#;

pub const AUTH_INNER_LIT: &'static str = r#"
import { LogInForm } from "~/devano/features/auth/LogInForm";
import { RegisterForm } from "~/devano/features/auth/RegisterForm";
import { PasswordResetRequest } from "./PasswordResetRequest";
import { PasswordResetChallenge } from "./PasswordResetChallenge";
import { Switch, Match } from "solid-js";
import { useAuth, ViewState } from "~/devano/features/auth/AuthState";

export default function AuthInner() {
	const { view } = useAuth();
	return (
		<div>
			<Switch>
				<Match when={view() === ViewState.LogIn}>
					<LogInForm />
				</Match>
				<Match when={view() === ViewState.Register}>
					<RegisterForm />
				</Match>
				<Match when={view() === ViewState.ResetPasswordRequest}>
					<PasswordResetRequest />
				</Match>
				<Match when={view() === ViewState.ResetPasswordChallenge}>
					<PasswordResetChallenge />
				</Match>
			</Switch>
		</div>
	);
}
"#;

pub const AUTH_NAV_LIT: &'static str = r#"
import { useAuth, ViewState } from "~/devano/features/auth/AuthState";
import { SingleSimpleSeparator } from "~/devano/atoms/decorators/Separator";
import { AnchorButton } from "~/devano/atoms/buttons/AnchorButton";

export function AuthNav() {
	let { view, setViewTo } = useAuth();

	return (
		<div class="flex align-center w-full gap-[6px] justify-center">
			{[
				view() !== ViewState.LogIn && (
					<AnchorButton onClick={setViewTo.login}>Log In</AnchorButton>
				),
				view() !== ViewState.Register && (
					<AnchorButton onClick={setViewTo.register}>Register</AnchorButton>
				),
				view() !== ViewState.ResetPasswordRequest && (
					<AnchorButton onClick={setViewTo.resetpasswordreq}>
						Reset Password
					</AnchorButton>
				),
			]
				.filter(Boolean)
				.map((item, index, array) => (
					<>
						{item}
						{index < array.length - 1 && (
							<SingleSimpleSeparator direction="vertical" />
						)}
					</>
				))}
		</div>
	);
}
"#;

pub const LOG_IN_FORM_LIT: &'static str = r#"
import { Button } from "~/devano/atoms/buttons/Button";
import { TextInput } from "~/devano/atoms/inputs/TextInput";
import { PasswordInput } from "~/devano/atoms/inputs/PasswordInput";
import { AuthNav } from "~/devano/features/auth/AuthNav";
import { Card } from "~/devano/atoms/layout/Card";
import { Heading } from "~/devano/workshop/Heading";
import { SimpleSeparator } from "~/devano/atoms/decorators/Separator";
import { api } from "~/devano/api";
import { ErrorMessage } from "~/devano/workshop/ErrorMessage";
import { useAuth } from "./AuthState";

export function LogInForm() {
	const { state, schema } = useAuth();
	async function login() {
		let t_email = state.email.get();
		let t_password = state.password.get();

		let loginResponse = await api.auth.login({
			email: t_email,
			password: t_password,
		});
	}
	return (
		<Card class="max-w-[65ch]">
			<Heading as="h2">Log In</Heading>
			<div class="flex flex-col gap-[12px]">
				<TextInput
					label="Email"
					placeholder="Enter your email"
					get={state.email.get}
					set={state.email.set}
					validationSchema={schema.email}
					onValidationError={state.error.set}
				/>
				<PasswordInput
					get={state.password.get}
					set={state.password.set}
					label="Password"
					validationSchema={schema.password}
					onValidationError={state.error.set}
				/>
				<Button onClick={login}>Log In</Button>
				<ErrorMessage when={state.error.get()}>
					{state.error.get()}
				</ErrorMessage>
			</div>
			<SimpleSeparator
				direction={"horizontal"}
				label="OR"
			/>
			<AuthNav />
		</Card>
	);
}
"#;

pub const REGISTER_FORM_LIT: &'static str = r#"
import { Button } from "~/devano/atoms/buttons/Button";
import { TextInput } from "~/devano/atoms/inputs/TextInput";
import { PasswordInput } from "~/devano/atoms/inputs/PasswordInput";
import AuthNav from "~/devano/features/auth/AuthNav";
import { SimpleSeparator } from "~/devano/atoms/decorators/Separator";

export default function RegisterForm() {
	return (
		<div class="flex flex-col border-[2px] border-(--gh-e) px-[24px] py-[12px] pb-[24px] rounded-[12px] gap-[24px]">
			<h2 class="text-[24px] font-[600]">Register</h2>
			<div class="flex flex-col gap-[12px]">
				<TextInput
					label="Email"
					placeholder="Enter your email"
				/>
				<PasswordInput label="Password" />
				<PasswordInput label="Confirm Password" />
				<Button>Register</Button>
			</div>
			<SimpleSeparator
				direction={"horizontal"}
				label="OR"
			/>
			<AuthNav />
		</div>
	);
}
"#;

/// The user-interface pieces of the authentication feature, each built from atoms.
#[derive(Debug, Clone, Copy, PartialEq, Eq, Structural)]
pub enum AuthMolecules {
    Auth,
    AuthState,
    AuthInner,
    AuthNav,
    LogInForm,
    RegisterForm,
}

impl AuthMolecules {
    /// Every molecule of the feature, in catalog order.
    pub open spec fn spec_all() -> Seq<AuthMolecules> {
        seq![
            AuthMolecules::Auth,
            AuthMolecules::AuthState,
            AuthMolecules::AuthInner,
            AuthMolecules::AuthNav,
            AuthMolecules::LogInForm,
            AuthMolecules::RegisterForm,
        ]
    }

    /// Returns every molecule of the feature, in catalog order.
    pub fn all() -> (r: Vec<AuthMolecules>)
        ensures
            r@ == Self::spec_all(),
    {
        vec![
            AuthMolecules::Auth,
            AuthMolecules::AuthState,
            AuthMolecules::AuthInner,
            AuthMolecules::AuthNav,
            AuthMolecules::LogInForm,
            AuthMolecules::RegisterForm,
        ]
    }

    /// The atoms that must be installed before this molecule, in installation order.
    pub open spec fn spec_atom_dependencies(self) -> Seq<Atoms> {
        match self {
            AuthMolecules::Auth => seq![],
            AuthMolecules::AuthState => seq![],
            AuthMolecules::AuthInner => seq![],
            AuthMolecules::AuthNav => seq![
                Atoms::Decorators(Decorators::Separators),
                Atoms::Buttons(Buttons::AnchorButton),
            ],
            AuthMolecules::LogInForm => seq![
                Atoms::Buttons(Buttons::Button),
                Atoms::Inputs(Inputs::Text),
                Atoms::Inputs(Inputs::Password),
                Atoms::Layout(Layouts::Card),
                Atoms::Feedback(Feedbacks::ErrorMsg),
                Atoms::Decorators(Decorators::Separators),
            ],
            AuthMolecules::RegisterForm => seq![
                Atoms::Buttons(Buttons::Button),
                Atoms::Inputs(Inputs::Text),
                Atoms::Inputs(Inputs::Password),
                Atoms::Decorators(Decorators::Separators),
            ],
        }
    }

    /// Returns the atoms that must be installed before this molecule, in installation order.
    pub fn atom_dependencies(&self) -> (r: Vec<Atoms>)
        ensures
            r@ == self.spec_atom_dependencies(),
    {
        match self {
            AuthMolecules::Auth => vec![],
            AuthMolecules::AuthState => vec![],
            AuthMolecules::AuthInner => vec![],
            AuthMolecules::AuthNav => vec![
                Atoms::Decorators(Decorators::Separators),
                Atoms::Buttons(Buttons::AnchorButton),
            ],
            AuthMolecules::LogInForm => vec![
                Atoms::Buttons(Buttons::Button),
                Atoms::Inputs(Inputs::Text),
                Atoms::Inputs(Inputs::Password),
                Atoms::Layout(Layouts::Card),
                Atoms::Feedback(Feedbacks::ErrorMsg),
                Atoms::Decorators(Decorators::Separators),
            ],
            AuthMolecules::RegisterForm => vec![
                Atoms::Buttons(Buttons::Button),
                Atoms::Inputs(Inputs::Text),
                Atoms::Inputs(Inputs::Password),
                Atoms::Decorators(Decorators::Separators),
            ],
        }
    }

    /// The component that this molecule installs.
    pub open spec fn spec_ui(self) -> UiComponentView {
        match self {
            AuthMolecules::Auth => UiComponentView {
                name: "auth",
                description: "The main Auth component, drop this in a route or modal to have auth be there.",
                long_description: "Imports and wraps AuthInner with AuthProvider, enabling internal state.",
                filename: "Auth.tsx",
                contents: AUTH_LIT,
                folder_path: "features/auth",
                npm_deps: seq![],
            },
            AuthMolecules::AuthState => UiComponentView {
                name: "auth-state",
                description: "Context for handling Auth views",
                long_description: "",
                filename: "AuthState.tsx",
                contents: AUTH_STATE_LIT,
                folder_path: "state",
                npm_deps: seq![],
            },
            AuthMolecules::AuthInner => UiComponentView {
                name: "auth-inner",
                description: "The view controller for Auth.",
                long_description: "Handles switches between view states.",
                filename: "AuthInner.tsx",
                contents: AUTH_INNER_LIT,
                folder_path: "features/auth",
                npm_deps: seq![],
            },
            AuthMolecules::AuthNav => UiComponentView {
                name: "auth-nav",
                description: "Navigation for auth - switch between Signup and Login, or Reset Password",
                long_description: "Switches view in state, no page refresh :)",
                filename: "AuthNav.tsx",
                contents: AUTH_NAV_LIT,
                folder_path: "features/auth",
                npm_deps: seq![],
            },
            AuthMolecules::LogInForm => UiComponentView {
                name: "log-in-form",
                description: "Form for logging in",
                long_description: "Roll your own function to call backend for now :)",
                filename: "LogInForm.tsx",
                contents: LOG_IN_FORM_LIT,
                folder_path: "features/auth",
                npm_deps: seq![],
            },
            AuthMolecules::RegisterForm => UiComponentView {
                name: "register-form",
                description: "Form for signing up",
                long_description: "Roll your own function to call backend for now :)",
                filename: "RegisterForm.tsx",
                contents: REGISTER_FORM_LIT,
                folder_path: "features/auth",
                npm_deps: seq![],
            },
        }
    }

    /// Returns the component that this molecule installs.
    pub fn get_ui(&self) -> (r: UiComponent)
        ensures
            r@ == self.spec_ui(),
    {
        let r = match self {
            AuthMolecules::Auth => UiComponent {
                name: "auth",
                description: "The main Auth component, drop this in a route or modal to have auth be there.",
                long_description: "Imports and wraps AuthInner with AuthProvider, enabling internal state.",
                filename: "Auth.tsx",
                contents: AUTH_LIT,
                folder_path: "features/auth",
                npm_deps: vec![],
            },
            AuthMolecules::AuthState => UiComponent {
                name: "auth-state",
                description: "Context for handling Auth views",
                long_description: "",
                filename: "AuthState.tsx",
                contents: AUTH_STATE_LIT,
                folder_path: "state",
                npm_deps: vec![],
            },
            AuthMolecules::AuthInner => UiComponent {
                name: "auth-inner",
                description: "The view controller for Auth.",
                long_description: "Handles switches between view states.",
                filename: "AuthInner.tsx",
                contents: AUTH_INNER_LIT,
                folder_path: "features/auth",
                npm_deps: vec![],
            },
            AuthMolecules::AuthNav => UiComponent {
                name: "auth-nav",
                description: "Navigation for auth - switch between Signup and Login, or Reset Password",
                long_description: "Switches view in state, no page refresh :)",
                filename: "AuthNav.tsx",
                contents: AUTH_NAV_LIT,
                folder_path: "features/auth",
                npm_deps: vec![],
            },
            AuthMolecules::LogInForm => UiComponent {
                name: "log-in-form",
                description: "Form for logging in",
                long_description: "Roll your own function to call backend for now :)",
                filename: "LogInForm.tsx",
                contents: LOG_IN_FORM_LIT,
                folder_path: "features/auth",
                npm_deps: vec![],
            },
            AuthMolecules::RegisterForm => UiComponent {
                name: "register-form",
                description: "Form for signing up",
                long_description: "Roll your own function to call backend for now :)",
                filename: "RegisterForm.tsx",
                contents: REGISTER_FORM_LIT,
                folder_path: "features/auth",
                npm_deps: vec![],
            },
        };
        proof {
            assert(r.npm_deps@ =~= self.spec_ui().npm_deps);
        }
        r
    }
}

impl Installable for AuthMolecules {
    open spec fn unit(&self) -> Unit {
        Unit::Molecule(*self)
    }

    fn name(&self) -> (r: &'static str)
        ensures
            r == self.spec_ui().name,
    {
        self.get_ui().name
    }

    fn install(&self) -> (r: Vec<Step>) {
        Unit::Molecule(*self).install()
    }
}

} // verus!
