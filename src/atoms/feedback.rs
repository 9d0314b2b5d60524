use vstd::prelude::*;
use crate::component::{UiComponent, UiComponentView};

verus! {

pub const ERROR_MSG_LIT: &'static str = r#"
import { cn } from "~/devano/utils/cn";
import { JSX, splitProps, Show } from "solid-js";

interface ErrorMessageProps extends JSX.HTMLAttributes<HTMLDivElement> {
	when: boolean;
}

/**
 *
 * @props when Required - when to show the message
 * @props children What to show inside the message - use a fragment `<></>` for multiple children
 * @props class Extend/override default styles
 * @returns
 */
export function ErrorMessage(props: ErrorMessageProps) {
	const [l, rest] = splitProps(props, ["when", "class", "children"]);
	const errorCn = cn([
		"flex gap-[6px] px-[12px] py-[6px] bg-(--c-e-a) text-(--c-e-i)",
		l?.class,
	]);
	return (
		<Show when={l.when}>
			<div
				class={errorCn}
				{...rest}
			>
				{l.children}
			</div>
		</Show>
	);
}
"#;

/// Feedback messages.
#[derive(Debug, Clone, Copy, PartialEq, Eq, Structural)]
pub enum Feedbacks {
    ErrorMsg,
}

impl Feedbacks {
    /// The component that this variant installs.
    pub open spec fn spec_ui(self) -> UiComponentView {
        match self {
            Feedbacks::ErrorMsg => UiComponentView {
                name: "error-msg",
                description: "Feeback component for errors - uses the third palette color",
                long_description: "",
                filename: "ErrorMessage.tsx",
                contents: ERROR_MSG_LIT,
                folder_path: "atoms/feedback",
                npm_deps: seq![],
            },
        }
    }

    /// Returns the component that this variant installs.
    pub fn get_ui(&self) -> (r: UiComponent)
        ensures
            r@ == self.spec_ui(),
    {
        let r = match self {
            Feedbacks::ErrorMsg => UiComponent {
                name: "error-msg",
                description: "Feeback component for errors - uses the third palette color",
                long_description: "",
                filename: "ErrorMessage.tsx",
                contents: ERROR_MSG_LIT,
                folder_path: "atoms/feedback",
                npm_deps: vec![],
            },
        };
        proof {
            assert(r.npm_deps@ =~= self.spec_ui().npm_deps);
        }
        r
    }
}

} // verus!
