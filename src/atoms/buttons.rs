use vstd::prelude::*;
use crate::component::{UiComponent, UiComponentView};

verus! {

pub const ANCHOR_LIT: &'static str = r#"
import { JSX, splitProps } from "solid-js";
import { A } from "@solidjs/router";
import { cn } from "~/devano/utils/cn";

interface AnchorProps extends JSX.AnchorHTMLAttributes<HTMLAnchorElement> {
	color?: "default" | "ara" | "ene" | "izi";
	href: string;
	end?: boolean;
}

export function Anchor(props: AnchorProps) {
	const [l, rest] = splitProps(props, [
		"color",
		"class",
		"children",
		"href",
		"end",
	]);

	const color = l?.color ?? "default";
	const end = l?.end ?? true;

	let inactiveCn = cn([
		"select-none font-semibold hover:cursor-pointer focus:outline-none", 
		{
			"text-(--fg-e) hover:text-(--fg-i) focus:text-(--c-a-e)":
				color == "default",
			"text-(--c-a-e) hover:text-(--c-a-i) focus:text-(--fg-i)": color == "ara", 
			"text-(--c-e-e) hover:text-(--c-e-i) focus:text-(--fg-i)": color == "ene",
			"text-(--c-i-e) hover:text-(--c-i-i) focus:text-(--fg-i)": color == "izi",
		},
		l?.class,
	]);

	let activeCn = cn([
		"select-none font-semibold hover:cursor-pointer focus:outline-none",
		{
			"text-(--fg-a) hover:text-(--fg-e) focus:text-(--c-a-i)":
				color == "default",
			"text-(--c-a-a) hover:text-(--c-a-e) focus:text-(--fg-i)": color == "ara",
			"text-(--c-e-a) hover:text-(--c-e-e) focus:text-(--fg-i)": color == "ene",
			"text-(--c-i-a) hover:text-(--c-i-e) focus:text-(--fg-i)": color == "izi",
		},
		l?.class,
	]);

	return (
		<A
			href={l.href}
			inactiveClass={inactiveCn}
			activeClass={activeCn}
			{...rest}
			end={end}
		>
			{l?.children ?? ""}
		</A>
	);
}
"#;

pub const ANCHOR_BUTTON_LIT: &'static str = r#"
import { JSX, splitProps } from "solid-js";
import { cn } from "~/devano/utils/cn";

interface AnchorProps extends JSX.ButtonHTMLAttributes<HTMLButtonElement> {
	color?: "default" | "ara" | "ene" | "izi";
}

export function AnchorButton(props: AnchorProps) {
	const [l, rest] = splitProps(props, ["color", "class", "children"]);

	const color = l.color ?? "default";

	let className = cn([
		"select-none font-semibold hover:cursor-pointer focus:outline-none",
		{
			"text-(--fg-e) hover:text-(--fg-i) focus:text-(--c-a-e)":
				color == "default",
			"text-(--c-a-e) hover:text-(--c-a-i) focus:text-(--fg-i)": color == "ara",
			"text-(--c-e-e) hover:text-(--c-e-i) focus:text-(--fg-i)": color == "ene",
			"text-(--c-i-e) hover:text-(--c-i-i) focus:text-(--fg-i)": color == "izi",
		},
		l?.class,
	]);

	return (
		<button
			class={className}
			{...rest}
		>
			{l?.children ?? ""}
		</button>
	);
}
"#;

pub const BUTTON_LIT: &'static str = r#"
import { JSX, splitProps } from "solid-js";
import { cn } from "~/devano/utils/cn";

interface ButtonProps extends JSX.ButtonHTMLAttributes<HTMLButtonElement> {
	outline?: boolean;
	color?: "default" | "ara" | "ene" | "izi";
	label?: string;
}
export function Button(props: ButtonProps) {
	const [l, rest] = splitProps(props, [
		"outline",
		"color",
		"label",
		"class",
		"children",
	]);

	const color = l.color ?? "default";

	let className = cn([
		"select-none px-4 py-1 font-semibold rounded-md border-[2px] hover:cursor-pointer focus:outline-[1px] focus:outline-(--c-a-e)",
		{
			"border-(--fg-e) text-(--fg-e) hover:text-(--fg-i) hover:border-(--fg-i)":
				color == "default" && l?.outline == true,
			"border-(--fg-i) bg-(--fg-i) text-(--bg-e) hover:bg-(--fg-o) hover:text-(--bg-i) hover:border-(--fg-o)":
				color == "default" && l?.outline == undefined,
			"border-(--c-a-e) text-(--c-a-e) hover:text-(--c-a-i) hover:border-(--c-a-i)":
				color == "ara" && l?.outline == true,
			"border-(--c-a-e) text-(--bg-i) bg-(--c-a-e) hover:bg-(--c-a-i) hover:text-(--bg-o) hover:border-(--c-a-i)":
				color == "ara" && l?.outline == undefined,
			"border-(--c-e-e) text-(--c-e-e) hover:text-(--c-e-i) hover:border-(c-e-i)":
				color == "ene" && l?.outline == true,
			"border-(--c-e-e) text-(--bg-i) bg-(--c-e-e) hover:bg-(--c-e-i) hover:text-(--bg-o) hover:border-(--c-e-i)":
				color == "ene" && l?.outline == undefined,
			"border-(--c-i-e) text-(--c-i-e) hover:text-(--c-i-i) hover:border-(c-i-i)":
				color == "izi" && l?.outline == true,
			"border-(--c-i-e) text-(--bg-i) bg-(--c-i-e) hover:bg-(--c-i-i) hover:text-(--bg-o) hover:border-(--c-i-i)":
				color == "izi" && l?.outline == undefined,
		},
		l?.class,
	]);

	return (
		<button
			class={className}
			{...rest}
		>
			{l?.label ?? l?.children ?? ""}
		</button>
	);
}
"#;

pub const BUTTON_ANCHOR_LIT: &'static str = r#"
import { JSX, splitProps } from "solid-js";
import { cn } from "~/devano/utils/cn";

interface ButtonProps extends JSX.HTMLAttributes<HTMLButtonElement> {
	outline?: boolean;
	color?: "default" | "ara" | "ene" | "izi";
	label?: string;
}
export function Button(props: ButtonProps) {
	const [l, rest] = splitProps(props, [
		"outline",
		"color",
		"label",
		"class",
		"children",
	]);

	const color = l.color ?? "default";

	let className = cn([
		"select-none px-4 py-1 font-semibold rounded-md border-[2px] hover:cursor-pointer focus:outline-[1px] focus:outline-(--c-a-e)",
		{
			"border-(--fg-e) text-(--fg-e) hover:text-(--fg-i) hover:border-(--fg-i)":
				color == "default" && l?.outline == true,
			"border-(--fg-i) bg-(--fg-i) text-(--bg-e) hover:bg-(--fg-o) hover:text-(--bg-i) hover:border-(--fg-o)":
				color == "default" && l?.outline == undefined,
			"border-(--c-a-e) text-(--c-a-e) hover:text-(--c-a-i) hover:border-(--c-a-i)":
				color == "ara" && l?.outline == true,
			"border-(--c-a-e) text-(--bg-i) bg-(--c-a-e) hover:bg-(--c-a-i) hover:text-(--bg-o) hover:border-(--c-a-i)":
				color == "ara" && l?.outline == undefined,
			"border-(--c-e-e) text-(--c-e-e) hover:text-(--c-e-i) hover:border-(c-e-i)":
				color == "ene" && l?.outline == true,
			"border-(--c-e-e) text-(--bg-i) bg-(--c-e-e) hover:bg-(--c-e-i) hover:text-(--bg-o) hover:border-(--c-e-i)":
				color == "ene" && l?.outline == undefined,
			"border-(--c-i-e) text-(--c-i-e) hover:text-(--c-i-i) hover:border-(c-i-i)":
				color == "izi" && l?.outline == true,
			"border-(--c-i-e) text-(--bg-i) bg-(--c-i-e) hover:bg-(--c-i-i) hover:text-(--bg-o) hover:border-(--c-i-i)":
				color == "izi" && l?.outline == undefined,
		},
		l?.class,
	]);

	return (
		<a
			class={className}
			{...rest}
		>
			{l?.label ?? l?.children ?? ""}
		</a>
	);
}
"#;

pub const ICON_BUTTON_LIT: &'static str = r#"
import { JSX, splitProps } from "solid-js";
import { cn } from "~/devano/utils/cn";

interface IconButtonProps extends JSX.HTMLAttributes<HTMLButtonElement> {
	outline?: boolean;
	color?: "default" | "ara" | "ene" | "izi";
}

export default function IconButton(props: IconButtonProps) {
	const [l, rest] = splitProps(props, [
		"outline",
		"color",
		"class",
		"children",
	]);

	const color = l.color ?? "default";

	let className = cn([
		"select-none px-1 py-1 font-semibold rounded-md border-[2px] hover:cursor-pointer focus:outline-[1px] focus:outline-(--c-a-e)",
		{
			"border-(--fg-e) text-(--fg-e) hover:text-(--fg-i) hover:border-(--fg-i)":
				color == "default" && l?.outline == true,
			"border-(--fg-i) bg-(--fg-i) text-(--bg-e) hover:text-(--bg-i) hover:bg-(--fg-o) hover:border-(--fg-o)":
				color == "default" && l?.outline == undefined,
			"border-(--c-a-e) text-(--c-a-e) hover:text-(--c-a-i) hover:border-(--c-a-i)":
				color == "ara" && l?.outline == true,
			"border-(--c-a-e) text-(--bg-i) bg-(--c-a-e) hover:bg-(--c-a-i) hover:text-(--bg-o) hover:border-(--c-a-i)":
				color == "ara" && l?.outline == undefined,
			"border-(--c-e-e) text-(--c-e-e) hover:text-(--c-e-i) hover:border-(c-e-i)":
				color == "ene" && l?.outline == true,
			"border-(--c-e-e) text-(--bg-i) bg-(--c-e-e) hover:bg-(--c-e-i) hover:text-(--bg-o) hover:border-(--c-e-i)":
				color == "ene" && l?.outline == undefined,
			"border-(--c-i-e) text-(--c-i-e) hover:text-(--c-i-i) hover:border-(c-i-i)":
				color == "izi" && l?.outline == true,
			"border-(--c-i-e) text-(--bg-i) bg-(--c-i-e) hover:bg-(--c-i-i) hover:text-(--bg-o) hover:border-(--c-i-i)":
				color == "izi" && l?.outline == undefined,
		},
		l?.class,
	]);

	return (
		<button
			class={className}
			{...rest}
		>
			{l.children ?? ""}
		</button>
	);
}
"#;

/// Anchors and buttons.
#[derive(Debug, Clone, Copy, PartialEq, Eq, Structural)]
pub enum Buttons {
    Anchor,
    AnchorButton,
    Button,
    ButtonAnchor,
    IconButton,
}

impl Buttons {
    /// The component that this variant installs.
    pub open spec fn spec_ui(self) -> UiComponentView {
        match self {
            Buttons::Anchor => UiComponentView {
                name: "anchor",
                description: "Devano <a> implementation.",
                long_description: "",
                filename: "Anchor.tsx",
                contents: ANCHOR_LIT,
                folder_path: "atoms/buttons",
                npm_deps: seq![],
            },
            Buttons::AnchorButton => UiComponentView {
                name: "anchor",
                description: "Devano <a> implementation.",
                long_description: "",
                filename: "AnchorButton.tsx",
                contents: ANCHOR_BUTTON_LIT,
                folder_path: "atoms/buttons",
                npm_deps: seq![],
            },
            Buttons::Button => UiComponentView {
                name: "button",
                description: "Devano <button> implementation.",
                long_description: "",
                filename: "Button.tsx",
                contents: BUTTON_LIT,
                folder_path: "atoms/buttons",
                npm_deps: seq![],
            },
            Buttons::ButtonAnchor => UiComponentView {
                name: "anchor-button",
                description: "Devano <a> implementation styled like a button.",
                long_description: "",
                filename: "LinkButton.tsx",
                contents: BUTTON_ANCHOR_LIT,
                folder_path: "atoms/buttons",
                npm_deps: seq![],
            },
            Buttons::IconButton => UiComponentView {
                name: "button",
                description: "Devano 'icon-button' implementation.",
                long_description: "Put an svg inside to give it standard Devano options and make it clicky.",
                filename: "IconButton.tsx",
                contents: ICON_BUTTON_LIT,
                folder_path: "atoms/buttons",
                npm_deps: seq![],
            },
        }
    }

    /// Returns the component that this variant installs.
    pub fn get_ui(&self) -> (r: UiComponent)
        ensures
            r@ == self.spec_ui(),
    {
        let r = match self {
            Buttons::Anchor => UiComponent {
                name: "anchor",
                description: "Devano <a> implementation.",
                long_description: "",
                filename: "Anchor.tsx",
                contents: ANCHOR_LIT,
                folder_path: "atoms/buttons",
                npm_deps: vec![],
            },
            Buttons::AnchorButton => UiComponent {
                name: "anchor",
                description: "Devano <a> implementation.",
                long_description: "",
                filename: "AnchorButton.tsx",
                contents: ANCHOR_BUTTON_LIT,
                folder_path: "atoms/buttons",
                npm_deps: vec![],
            },
            Buttons::Button => UiComponent {
                name: "button",
                description: "Devano <button> implementation.",
                long_description: "",
                filename: "Button.tsx",
                contents: BUTTON_LIT,
                folder_path: "atoms/buttons",
                npm_deps: vec![],
            },
            Buttons::ButtonAnchor => UiComponent {
                name: "anchor-button",
                description: "Devano <a> implementation styled like a button.",
                long_description: "",
                filename: "LinkButton.tsx",
                contents: BUTTON_ANCHOR_LIT,
                folder_path: "atoms/buttons",
                npm_deps: vec![],
            },
            Buttons::IconButton => UiComponent {
                name: "button",
                description: "Devano 'icon-button' implementation.",
                long_description: "Put an svg inside to give it standard Devano options and make it clicky.",
                filename: "IconButton.tsx",
                contents: ICON_BUTTON_LIT,
                folder_path: "atoms/buttons",
                npm_deps: vec![],
            },
        };
        proof {
            assert(r.npm_deps@ =~= self.spec_ui().npm_deps);
        }
        r
    }
}

} // verus!
