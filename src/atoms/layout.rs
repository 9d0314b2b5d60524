use vstd::prelude::*;
use crate::component::{UiComponent, UiComponentView};

verus! {

pub const CARD_LIT: &'static str = r#"
import { JSX, splitProps } from "solid-js";
import { cn } from "~/devano/utils/cn";

interface CardProps extends JSX.HTMLAttributes<HTMLDivElement> {}

export function Card(props: CardProps) {
	let [l, rest] = splitProps(props, ["class", "children"]);

	let cardCN = cn([
		"flex flex-col w-[35ch] border-[2px] border-(--gh-e) px-[24px] py-[12px] pb-[24px] rounded-[12px] gap-[24px]",
		l?.class,
	]);

	return (
		<div
			class={cardCN}
			{...rest}
		>
			{l.children}
		</div>
	);
}
"#;

pub const PAGE_LIT: &'static str = r#"
import { JSX, splitProps } from "solid-js";

export function Page(props: JSX.HTMLAttributes<HTMLElement>) {
	const [l, rest] = splitProps(props, ["class"]);
	return (
		<main
			class="flex flex-col w-full min-h-[100vh] gap-[48px] items-center bg-(--bg-i) text-(--fg-e)"
			{...rest}
		/>
	);
}
"#;

pub const PAGE_INNER_LIT: &'static str = r#"
import { JSX, splitProps } from "solid-js";
import { cn } from "~/devano/utils/cn";
// import { TopNav } from "./TopNav";
// import { FooterNav } from "./FooterNav";

interface PageInnerProps extends JSX.HTMLAttributes<HTMLDivElement> {}

export default function PageInner(props: PageInnerProps) {
	const [l, rest] = splitProps(props, ["class"]);

	const innerCn = cn([
		"flex flex-col h-screen w-screen items-center justify-between",
		l?.class,
	]);

	return (
		<div
			class={innerCn}
			{...rest}
		>
			<div class="flex-none w-full px-[24px] py-[12px]">
				{/* <TopNav /> */}
			</div>
			<div class="flex-1 overflow-y-scroll pb-[24px]">{props.children}</div>
			<div class="flex items-center justify-center flex-none w-full py-[12px]">
				{/* <FooterNav /> */}
			</div>
		</div>
	);
}
"#;

pub const STACK_LIT: &'static str = r#"
import { JSX, splitProps } from "solid-js";
import { cn } from "~/devano/utils/cn";

interface StackProps extends JSX.HTMLAttributes<HTMLDivElement> {
	direction?: "row" | "col";
}

/**
 *
 * 	@prop class standard classnames, use to extend or overwrite defaults.
 *	@prop direction "row" | "col" -> makes a row or column
 */
export default function Stack(props: StackProps) {
	const [l, rest] = splitProps(props, ["children", "class", "direction"]);

	let className = cn([
		"flex gap-[12px] items-center",
		{
			"flex-col gap-[6px]": l?.direction === "col",
		},
		l?.class,
	]);

	return (
		<div
			class={className}
			{...rest}
		>
			{l.children}
		</div>
	);
}
"#;

pub const HEADING_LIT: &'static str = r#"
import { JSX, splitProps, Switch, Match } from "solid-js";
import { cn } from "~/devano/utils/cn";

interface HeadingProps extends JSX.HTMLAttributes<HTMLHeadingElement> {
	as: "h1" | "h2" | "h3" | "h4" | "h5" | "h6";
}

export function Heading(props: HeadingProps) {
	const [local, rest] = splitProps(props, ["as", "children", "class"]);

	let headingCn = cn([
		{
			h1: "text-4xl font-bold",
			h2: "text-3xl font-semibold",
			h3: "text-2xl font-medium",
			h4: "text-xl font-medium",
			h5: "text-lg font-normal",
			h6: "text-base font-normal",
		}[local.as],
		local.class,
	]);

	return (
		<Switch>
			<Match when={local.as === "h1"}>
				<h1
					class={headingCn}
					{...rest}
				>
					{local.children}
				</h1>
			</Match>
			<Match when={local.as === "h2"}>
				<h2
					class={headingCn}
					{...rest}
				>
					{local.children}
				</h2>
			</Match>
			<Match when={local.as === "h3"}>
				<h3
					class={headingCn}
					{...rest}
				>
					{local.children}
				</h3>
			</Match>
			<Match when={local.as === "h4"}>
				<h4
					class={headingCn}
					{...rest}
				>
					{local.children}
				</h4>
			</Match>
			<Match when={local.as === "h5"}>
				<h5
					class={headingCn}
					{...rest}
				>
					{local.children}
				</h5>
			</Match>
			<Match when={local.as === "h6"}>
				<h6
					class={headingCn}
					{...rest}
				>
					{local.children}
				</h6>
			</Match>
		</Switch>
	);
}
"#;

pub const MODAL_LIT: &'static str = r#"
import { Portal, Show, Switch, Match } from "solid-js/web";
import { JSX, splitProps } from "solid-js";
import { Card } from "./Card";

interface ModalProps extends JSX.HTMLAttributes<HTMLDivElement> {
	when: boolean;
	close: Function;
}
export default function Modal(props: ModalProps) {
	const [l, rest] = splitProps(props, ["when", "children", "close"]);

	return (
		<Switch fallback={<></>}>
			<Match when={l.when}>
				<Portal>
					<div
						onClick={() => l.close()}
						class="w-[100vw] h-[100vh] left-0 top-0 absolute bg-(--bg-a) opacity-25"
					/>
					<Card
						class="absolute left-[50%] top-[50%] bg-(--bg-e) text-(--fg-e)"
						style={{ transform: "translateX(-50%) translateY(-50%)" }}
					>
						{l?.children}
					</Card>
				</Portal>
			</Match>
		</Switch>
	);
}
"#;

/// Page and layout containers.
#[derive(Debug, Clone, Copy, PartialEq, Eq, Structural)]
pub enum Layouts {
    Card,
    Page,
    PageInner,
    Stack,
    Heading,
    Modal,
}

impl Layouts {
    /// The component that this variant installs.
    pub open spec fn spec_ui(self) -> UiComponentView {
        match self {
            Layouts::Card => UiComponentView {
                name: "card",
                description: "Devano card implementation",
                long_description: "Append a class to over-ride default styles",
                filename: "Card.tsx",
                contents: CARD_LIT,
                folder_path: "atoms/layout",
                npm_deps: seq![],
            },
            Layouts::Page => UiComponentView {
                name: "page",
                description: "Devano <main> implementation.",
                long_description: "",
                filename: "Page.tsx",
                contents: PAGE_LIT,
                folder_path: "atoms/layout",
                npm_deps: seq![],
            },
            Layouts::PageInner => UiComponentView {
                name: "page-inner",
                description: "Composes navigation... WIP",
                long_description: "",
                filename: "PageInner.tsx",
                contents: PAGE_INNER_LIT,
                folder_path: "atoms/layout",
                npm_deps: seq![],
            },
            Layouts::Stack => UiComponentView {
                name: "stack",
                description: "Devano flex-row/flex-column implementation",
                long_description: "Use the Direction prop for fast row/columns. Row by default.",
                filename: "Stack.tsx",
                contents: STACK_LIT,
                folder_path: "atoms/layout",
                npm_deps: seq![],
            },
            Layouts::Heading => UiComponentView {
                name: "heading",
                description: "Devano Heading Implementation",
                long_description: "Use the Direction prop for fast row/columns. Row by default.",
                filename: "Heading.tsx",
                contents: HEADING_LIT,
                folder_path: "atoms/layout",
                npm_deps: seq![],
            },
            Layouts::Modal => UiComponentView {
                name: "modal",
                description: "Devano Modal Implementation",
                long_description: "",
                filename: "Modal.tsx",
                contents: MODAL_LIT,
                folder_path: "atoms/layout",
                npm_deps: seq![],
            },
        }
    }

    /// Returns the component that this variant installs.
    pub fn get_ui(&self) -> (r: UiComponent)
        ensures
            r@ == self.spec_ui(),
    {
        let r = match self {
            Layouts::Card => UiComponent {
                name: "card",
                description: "Devano card implementation",
                long_description: "Append a class to over-ride default styles",
                filename: "Card.tsx",
                contents: CARD_LIT,
                folder_path: "atoms/layout",
                npm_deps: vec![],
            },
            Layouts::Page => UiComponent {
                name: "page",
                description: "Devano <main> implementation.",
                long_description: "",
                filename: "Page.tsx",
                contents: PAGE_LIT,
                folder_path: "atoms/layout",
                npm_deps: vec![],
            },
            Layouts::PageInner => UiComponent {
                name: "page-inner",
                description: "Composes navigation... WIP",
                long_description: "",
                filename: "PageInner.tsx",
                contents: PAGE_INNER_LIT,
                folder_path: "atoms/layout",
                npm_deps: vec![],
            },
            Layouts::Stack => UiComponent {
                name: "stack",
                description: "Devano flex-row/flex-column implementation",
                long_description: "Use the Direction prop for fast row/columns. Row by default.",
                filename: "Stack.tsx",
                contents: STACK_LIT,
                folder_path: "atoms/layout",
                npm_deps: vec![],
            },
            Layouts::Heading => UiComponent {
                name: "heading",
                description: "Devano Heading Implementation",
                long_description: "Use the Direction prop for fast row/columns. Row by default.",
                filename: "Heading.tsx",
                contents: HEADING_LIT,
                folder_path: "atoms/layout",
                npm_deps: vec![],
            },
            Layouts::Modal => UiComponent {
                name: "modal",
                description: "Devano Modal Implementation",
                long_description: "",
                filename: "Modal.tsx",
                contents: MODAL_LIT,
                folder_path: "atoms/layout",
                npm_deps: vec![],
            },
        };
        proof {
            assert(r.npm_deps@ =~= self.spec_ui().npm_deps);
        }
        r
    }
}

} // verus!
