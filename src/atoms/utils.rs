use vstd::prelude::*;
use crate::component::{UiComponent, UiComponentView};

verus! {

pub const CN_LIT: &'static str = r#"
import { twMerge } from "tailwind-merge";
import clsx from "clsx";
import type { ClassValue } from "clsx";

export const cn = (...inputs: ClassValue[]) => {
	return twMerge(clsx(inputs));
};
"#;

/// Helpers shared by the other atoms.
#[derive(Debug, Clone, Copy, PartialEq, Eq, Structural)]
pub enum Utils {
    Cn,
}

impl Utils {
    /// The component that this variant installs.
    pub open spec fn spec_ui(self) -> UiComponentView {
        match self {
            Utils::Cn => UiComponentView {
                name: "cn",
                description: "ClassName utility",
                long_description: "",
                filename: "cn.ts",
                contents: CN_LIT,
                folder_path: "utils",
                npm_deps: seq!["tailwind-merge", "clsx"],
            },
        }
    }

    /// Returns the component that this variant installs.
    pub fn get_ui(&self) -> (r: UiComponent)
        ensures
            r@ == self.spec_ui(),
    {
        let r = match self {
            Utils::Cn => UiComponent {
                name: "cn",
                description: "ClassName utility",
                long_description: "",
                filename: "cn.ts",
                contents: CN_LIT,
                folder_path: "utils",
                npm_deps: vec!["tailwind-merge", "clsx"],
            },
        };
        proof {
            assert(r.npm_deps@ =~= self.spec_ui().npm_deps);
        }
        r
    }
}

} // verus!
