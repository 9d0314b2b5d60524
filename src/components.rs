use vstd::prelude::*;

verus! {

pub const BUTTON_COMPONENT_LITERAL: &'static str = r#"
import { JSX, splitProps } from "solid-js";

interface DevanoButtonProps extends JSX.HTMLAttributes<HTMLButtonElement> {
	outline?: boolean;
	color?: "default" | "primary" | "secondary" | "destructive";
	label?: string;
}
export function Button(props: DevanoButtonProps) {
	const [l, rest] = splitProps(props, ["outline", "color", "label", "class"]);
	const color = l.color;
	if (color === "destructive") {
		if (l?.outline === true) {
			return (
				<button
					class={`px-4 py-1 font-semibold rounded-md border-(length:--ds-border-sm) border-(--dc-dbg) text-(--dc-dbg)  hover:text-(--dc-dbg-brighter) hover:border-(--dc-dbg-brighter) hover:cursor-pointer focus:outline-(length:--ds-border-xs) focus:outline-(--dc-pbg) ${l?.class}`}
					{...rest}
				>
					{l?.label ?? "Outline Button Primary"}
				</button>
			);
		}
		return (
			<button
				class={`px-4 py-1 font-semibold rounded-md border-(length:--ds-border-sm) border-(--dc-dbg) text-(--dc-pfg) bg-(--dc-dbg) hover:bg-(--dc-dbg-brighter) hover:border-(--dc-dbg-brighter) hover:text-(--dc-pfg-darker) hover:cursor-pointer focus:outline-(length:--ds-border-xs) focus:outline-(--dc-pbg) ${l?.class}`}
				{...rest}
			>
				{l?.label ?? "Outline Button Primary"}
			</button>
		);
	}
	if (color === "secondary") {
		if (l?.outline === true) {
			return (
				<button
					class={`px-4 py-1 font-semibold rounded-md border-(length:--ds-border-sm) border-(--dc-sbg) text-(--dc-sbg)  hover:text-(--dc-sbg-brighter) hover:border-(--dc-sbg-brighter) hover:cursor-pointer focus:outline-(length:--ds-border-xs) focus:outline-(--dc-pbg) ${l?.class}`}
					{...rest}
				>
					{l?.label ?? "Outline Button Primary"}
				</button>
			);
		}
		return (
			<button
				class={`px-4 py-1 font-semibold rounded-md border-(length:--ds-border-sm) border-(--dc-sbg) text-(--dc-pfg) bg-(--dc-sbg) hover:bg-(--dc-sbg-brighter) hover:border-(--dc-sbg-brighter) hover:text-(--dc-pfg-darker) hover:cursor-pointer focus:outline-(length:--ds-border-xs) focus:outline-(--dc-pbg) ${l?.class}`}
				{...rest}
			>
				{l?.label ?? "Outline Button Primary"}
			</button>
		);
	}

	if (color === "primary") {
		if (l?.outline === true) {
			return (
				<button
					class={`px-4 py-1 font-semibold rounded-md border-(length:--ds-border-sm) border-(--dc-pbg) text-(--dc-pbg)  hover:text-(--dc-pbg-brighter) hover:border-(--dc-pbg-brighter) hover:cursor-pointer focus:outline-(length:--ds-border-xs) focus:outline-(--dc-sbg) ${l?.class}`}
					{...rest}
				>
					{l?.label ?? "Outline Button Primary"}
				</button>
			);
		}
		return (
			<button
				class={`px-4 py-1 font-semibold rounded-md border-(length:--ds-border-sm) border-(--dc-pbg) text-(--dc-pfg) bg-(--dc-pbg) hover:bg-(--dc-pbg-brighter) hover:border-(--dc-pbg-brighter) hover:text-(--dc-pfg-darker) hover:cursor-pointer focus:outline-(length:--ds-border-xs) focus:outline-(--dc-sbg) ${l?.class}`}
				{...rest}
			>
				{l?.label ?? "Outline Button Primary"}
			</button>
		);
	}
	if (l?.outline === true) {
		return (
			<button
				class={`px-4 py-1 font-semibold rounded-md border-(length:--ds-border-sm) border-(--dc-fg) text-(--dc-fg) hover:text-(--dc-fg-brighter) hover:border-(--dc-fg-brighter) hover:cursor-pointer focus:outline-(length:--ds-border-xs) focus:outline-(--dc-pbg) ${l?.class}`}
				{...rest}
			>
				{l?.label ?? "Outline Button Primary"}
			</button>
		);
	}
	return (
		<button
			class={`px-4 py-1 font-semibold rounded-md border-(length:--ds-border-sm) border-(--dc-fg) text-(--dc-bg) bg-(--dc-fg) hover:bg-(--dc-fg-brighter) hover:border-(--dc-fg-brighter) hover:text-(--dc-bg-darker) hover:cursor-pointer focus:outline-(length:--ds-border-xs) focus:outline-(--dc-pbg) ${l?.class}`}
			{...rest}
		>
			{l?.label ?? "Outline Button Primary"}
		</button>
	);
}

"#;

pub const TEXT_INPUT_LITERAL: &'static str = r#"
import { JSX, splitProps } from "solid-js";
import twmerge from "tailwind-merge";

interface DevanoTextInputProps extends JSX.HTMLAttributes<HTMLInputElement> {}

export function TextInput(props: DevanoTextInputProps) {
	const [l, rest] = splitProps(props, ["class"]);
	return (
		<input
			class="bg-(--dc-bg-darker) py-(--ds-border-md) px-(--ds-gap-xs) rounded-(--ds-gap-xs) border-(length:--ds-border-sm) border-(--dc-fg) focus:outline-(length:--ds-border-xs) focus:outline-(--dc-pbg)"
			{...rest}
		/>
	);
}
"#;

/// A stand-alone component of the flat catalog: a file with no folder and no dependencies, and
/// the packages it needs.
pub struct UiComponent {
    pub name: &'static str,
    pub description: &'static str,
    pub long_description: &'static str,
    pub filename: &'static str,
    pub contents: &'static str,
    pub required_npm: Vec<&'static str>,
}

/// The mathematical value of a [`UiComponent`] of the flat catalog.
pub struct UiComponentView {
    pub name: &'static str,
    pub description: &'static str,
    pub long_description: &'static str,
    pub filename: &'static str,
    pub contents: &'static str,
    pub required_npm: Seq<&'static str>,
}

impl View for UiComponent {
    type V = UiComponentView;

    open spec fn view(&self) -> UiComponentView {
        UiComponentView {
            name: self.name,
            description: self.description,
            long_description: self.long_description,
            filename: self.filename,
            contents: self.contents,
            required_npm: self.required_npm@,
        }
    }
}

/// The flat catalog: each component under its name, in order.
pub open spec fn spec_component_registry() -> Seq<(&'static str, UiComponentView)> {
    seq![
        ("button", UiComponentView {
            name: "button",
            description: "Devano <button> implementation.",
            long_description: "Uses tailwind-merge and clsx under the hood for conditional rendering and custom class props.",
            filename: "Button.tsx",
            contents: BUTTON_COMPONENT_LITERAL,
            required_npm: seq!["@devano/ui"],
        }),
        ("text-input", UiComponentView {
            name: "text-input",
            description: "Devano <input type='text'> implementation.",
            long_description: "Uses tailwind-merge and clsx under the hood for conditional rendering and custom class props.",
            filename: "TextInput.tsx",
            contents: TEXT_INPUT_LITERAL,
            required_npm: seq!["tailwind-merge", "clsx"],
        }),
    ]
}

/// Returns the flat catalog: each component under its name, in order.
pub fn make_component_registry() -> (r: Vec<(&'static str, UiComponent)>)
    ensures
        r@.map_values(|e: (&'static str, UiComponent)| (e.0, e.1@)) == spec_component_registry(),
{
    let button = UiComponent {
        name: "button",
        description: "Devano <button> implementation.",
        long_description: "Uses tailwind-merge and clsx under the hood for conditional rendering and custom class props.",
        filename: "Button.tsx",
        contents: BUTTON_COMPONENT_LITERAL,
        required_npm: vec!["@devano/ui"],
    };
    let text_input = UiComponent {
        name: "text-input",
        description: "Devano <input type='text'> implementation.",
        long_description: "Uses tailwind-merge and clsx under the hood for conditional rendering and custom class props.",
        filename: "TextInput.tsx",
        contents: TEXT_INPUT_LITERAL,
        required_npm: vec!["tailwind-merge", "clsx"],
    };
    proof {
        assert(button.required_npm@ =~= seq!["@devano/ui"]);
        assert(text_input.required_npm@ =~= seq!["tailwind-merge", "clsx"]);
    }
    let r = vec![(button.name, button), (text_input.name, text_input)];
    proof {
        assert(r@.map_values(|e: (&'static str, UiComponent)| (e.0, e.1@)) =~= spec_component_registry());
    }
    r
}

} // verus!
