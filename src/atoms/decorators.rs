use vstd::prelude::*;
use crate::component::{UiComponent, UiComponentView};

verus! {

pub const SEPARATORS_LIT: &'static str = r#"
import { JSX, splitProps } from "solid-js";
import { cn } from "~/devano/utils/cn";
interface SeparatorProps extends JSX.HTMLAttributes<HTMLDivElement> {
	label?: string;
	direction?: "horizontal" | "vertical";
}

export function SimpleSeparator(props: SeparatorProps) {
	const [l, rest] = splitProps(props, [
		"label",
		"direction",
		"class",
		"aria-hidden",
	]);
	let dir = l?.direction ?? "horizontal";
	let containerCn = cn([
		"flex align-center items-center justify-center select-none",
		{
			"flex-col": dir == "vertical",
		},
		{
			"gap-[12px]": l?.label !== undefined,
		},
	]);
	let decoratorCn = cn([
		{
			"w-[2px] h-[32px]": l?.label == undefined && dir == "vertical",
			"w-[32px] h-[2px]": l?.label == undefined && dir == "horizontal",
			"w-[2px] h-[16px]": l?.label !== undefined && dir == "vertical",
			"w-[16px] h-[2px]": l?.label !== undefined && dir == "horizontal",
		},
		l.class?.includes("text-")
			? l.class
					.split(" ")
					.map((cls) =>
						cls.startsWith("text-") ? cls.replace("text-", "bg-") : cls
					)
					.join(" ")
			: "bg-(--fg-e)",
	]);

	return (
		<div
			class={containerCn}
			{...rest}
			aria-hidden
		>
			<div class={decoratorCn} />
			{l?.label}
			<div class={decoratorCn} />
		</div>
	);
}

interface SingleSimpleSeparatorProps
	extends JSX.HTMLAttributes<HTMLDivElement> {
	direction?: "horizontal" | "vertical";
}

export function SingleSimpleSeparator(props: SingleSimpleSeparatorProps) {
	const [l, rest] = splitProps(props, ["direction", "class"]);
	let dir = l?.direction ?? "horizontal";

	let containerCn = cn([
		"flex align-center items-center justify-center select-none",
		{
			"flex-col": dir == "vertical",
		},
	]);
	let decoratorCn = cn([
		{
			"w-[2px] h-[16px]": dir == "vertical",
			"w-[16px] h-[2px]": dir == "horizontal",
		},
		l.class?.includes("text-")
			? l.class
					.split(" ")
					.map((cls) =>
						cls.startsWith("text-") ? cls.replace("text-", "bg-") : cls
					)
					.join(" ")
			: "bg-(--fg-e)",
	]);

	return (
		<div
			class={containerCn}
			{...rest}
			aria-hidden
		>
			<div class={decoratorCn} />
		</div>
	);
}
"#;

/// Visual separators.
#[derive(Debug, Clone, Copy, PartialEq, Eq, Structural)]
pub enum Decorators {
    Separators,
}

impl Decorators {
    /// The component that this variant installs.
    pub open spec fn spec_ui(self) -> UiComponentView {
        match self {
            Decorators::Separators => UiComponentView {
                name: "separators",
                description: "Separator decoration components",
                long_description: "",
                filename: "Separator.tsx",
                contents: SEPARATORS_LIT,
                folder_path: "atoms/decorators",
                npm_deps: seq![],
            },
        }
    }

    /// Returns the component that this variant installs.
    pub fn get_ui(&self) -> (r: UiComponent)
        ensures
            r@ == self.spec_ui(),
    {
        let r = match self {
            Decorators::Separators => UiComponent {
                name: "separators",
                description: "Separator decoration components",
                long_description: "",
                filename: "Separator.tsx",
                contents: SEPARATORS_LIT,
                folder_path: "atoms/decorators",
                npm_deps: vec![],
            },
        };
        proof {
            assert(r.npm_deps@ =~= self.spec_ui().npm_deps);
        }
        r
    }
}

} // verus!
