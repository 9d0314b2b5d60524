use vstd::prelude::*;
use crate::scaffold::{BashInstructionView, FileInstructionView};

verus! {

pub const TSCONFIG_LITERAL: &'static str = r#"
    {
  "compilerOptions": {
    "target": "ESNext",
    "module": "ESNext",
    "moduleResolution": "bundler",
    "allowSyntheticDefaultImports": true,
    "esModuleInterop": true,
    "jsx": "preserve",
    "jsxImportSource": "solid-js",
    "allowJs": true,
    "strict": true,
    "noEmit": true,
    "types": ["vinxi/types/client"],
    "isolatedModules": true,
    "paths": {
      "~/*": ["./src/*"]
    }
  }
}
"#;

pub const APP_CONFIG_LITERAL: &'static str = r#"
    import { defineConfig } from "@solidjs/start/config";
import tailwindcss from "@tailwindcss/vite";
export default defineConfig({
	vite: {
		plugins: [tailwindcss()],
	},
});
"#;

pub const PACKAGE_JSON_LITERAL: &'static str = r#"
{
	"name": "Devano Web App",
	"type": "module",
	"scripts": {
		"dev": "vinxi dev",
		"build": "vinxi build",
		"start": "vinxi start"
	},
	"dependencies": {
		"@solidjs/meta": "^0.29.4",
		"@solidjs/router": "^0.15.0",
		"@solidjs/start": "^1.1.0",
		"@trpc/client": "^10.45.2",
		"@trpc/server": "^10.45.2",
		"@typeschema/valibot": "^0.13.4",
		"axios": "^1.9.0",
		"clsx": "^2.1.1",
		"solid-js": "^1.9.5",
		"tailwind-merge": "^3.2.0",
		"valibot": "^0.29.0",
		"vinxi": "^0.5.3",
		"zod": "3.24.2"
	},
	"devDependencies": {
		"@tailwindcss/vite": "^4.0.7",
		"tailwindcss": "^4.0.7"
	},
	"engines": {
		"node": ">=22"
	}
}
"#;

pub const GITIGNORE_LITERAL: &'static str = r#"
dist
.wrangler
.output
.vercel
.netlify
.vinxi
app.config.timestamp_*.js

# Environment
.env
.env*.local

# dependencies
/node_modules

# IDEs and editors
/.idea
.project
.classpath
*.launch
.settings/

# Temp
gitignore

# System Files
.DS_Store
Thumbs.db
"#;

pub const APP_TSX_LITERAL: &'static str = r#"
import { MetaProvider, Title } from "@solidjs/meta";
import { Router } from "@solidjs/router";
import { FileRoutes } from "@solidjs/start/router";
import { Suspense, onMount } from "solid-js";
import { api } from "~/devano/api";
import "./app.css";
import "./css/devano/palette.css";

export default function App() {
	onMount(() => {
		// utils for validating sessions and users
		api.tokens.user(() => localStorage.getItem("ut"));
		api.tokens.handshake(() => localStorage.getItem("hs"));
		if (!localStorage.getItem("hs")) {
			// do the handshake
			api.handshake();
		}
	});
	return (
		<Router
			root={(props) => (
				<MetaProvider>
					<Title>Devano</Title>
					<Suspense>{props.children}</Suspense>
				</MetaProvider>
			)}
		>
			<FileRoutes />
		</Router>
	);
}
"#;

pub const ENTRY_CLIENT_LITERAL: &'static str = r#"
import { mount, StartClient } from "@solidjs/start/client";

mount(() => <StartClient />, document.getElementById("app")!);
"#;

pub const ENTRY_SERVER_LITERAL: &'static str = r#"
// @refresh reload
import { createHandler, StartServer } from "@solidjs/start/server";

export default createHandler(() => (
  <StartServer
    document={({ assets, children, scripts }) => (
      <html lang="en">
        <head>
          <meta charset="utf-8" />
          <meta name="viewport" content="width=device-width, initial-scale=1" />
          <link rel="icon" href="/favicon.ico" />
          {assets}
        </head>
        <body>
          <div id="app">{children}</div>
          {scripts}
        </body>
      </html>
    )}
  />
));
"#;

pub const ENV_LIT: &'static str = r#"
VITE_API_URL=""
"#;

pub const ENV_D_TS_LIT: &'static str = r#"
interface ImportMetaEnv {
	readonly VITE_API_URL: string;
}
"#;

pub const API_UTILS_LIT: &'static str = r#"
/**
 * Utility module for API interactions using Axios.
 *
 * This module provides two Axios instances, `sona` and `vona`, for handling API requests
 * with different levels of authorization. It also includes mechanisms for dynamically
 * injecting user and handshake tokens into requests made with the `vona` instance.
 *
 * ### Exports:
 *
 * - `BASE_URL`: The base URL for API requests, derived from environment variables.
 * - `sona`: An Axios instance for public API access, configured with cookies.
 * - `vona`: An Axios instance for authenticated API access, configured with cookies and
 *   optional Authorization and handshake tokens.
 * - `useUserToken(fn: () => MaybeString)`: A function to set the user token retrieval mechanism
 *   for the `vona` instance.
 * - `useHandshakeToken(fn: () => MaybeString)`: A function to set the handshake token retrieval mechanism
 *   for the `vona` instance.
 *
 * ### Axios Instances:
 *
 * - **`sona`**:
 *   - Represents a "stranger" or public access level.
 *   - Does not include Authorization headers.
 *   - Uses cookies for session management.
 *   - Includes a rate-limiting mechanism to prevent excessive requests.
 *
 * - **`vona`**:
 *   - Represents a "trusted" or authenticated access level.
 *   - Dynamically includes an Authorization header with a Bearer token if provided.
 *   - Dynamically includes a handshake token in the `ui-access-key` header if provided.
 *   - Uses cookies for session management.
 *
 * ### Functions:
 *
 * - **`useUserToken(fn: () => MaybeString)`**:
 *   - Sets a callback function to retrieve the user authentication token.
 *   - The token is dynamically injected into the Authorization header of requests made
 *     with the `vona` instance.
 *
 * - **`useHandshakeToken(fn: () => MaybeString)`**:
 *   - Sets a callback function to retrieve the handshake token.
 *   - The token is dynamically injected into the `ui-access-key` header of requests made
 *     with the `vona` instance.
 *
 * ### Interceptors:
 *
 * - The `sona` instance includes a request interceptor that:
 *   - Enforces a minimum time interval (5 seconds) between consecutive requests.
 *   - Rejects requests made too frequently with an appropriate error message.
 *
 * - The `vona` instance includes a request interceptor that:
 *   - Retrieves the user and handshake tokens using the callback functions set by
 *     `useUserToken` and `useHandshakeToken`.
 *   - Appends the tokens as headers (`Authorization` and `ui-access-key`) if available.
 */

import axios from "axios";

export const BASE_URL = import.meta.env.VITE_API_URL;

/**
 * "Sona" is a Diralevan (conlang) reconstruction of PIE "sen-"" which,
 * in English, has descended into "senior" and "senate" - it means "outsider" in a neutral way.
 * This value, `sona`, is a plain axios instance for handling API calls without passing
 * any kind of tokens beyond standard cookies.
 */
export const sona = axios.create({
	// sona = stranger, public access
	baseURL: BASE_URL,
	withCredentials: true,
});

/**
 * "Vona" is a Diralevan (conlang) reconstruction of PIE 'wen-' which,
 * in English, has descended into "friend".
 * This value, `vona`, is an axios instance that appends a user-level token
 * for Authorization and a session level token for managing requests.
 */
export const vona = axios.create({
	// vona = trusted / known... bit of wishful thinking to trust a client you know
	baseURL: BASE_URL,
	withCredentials: true,
});

type MaybeString = string | undefined | null;

let getUserToken: (() => MaybeString) | null = null;
let getHandshakeToken: (() => MaybeString) | null = null;

export function useUserToken(fn: () => MaybeString) {
	getUserToken = fn;
}
export function useHandshakeToken(fn: () => MaybeString) {
	getHandshakeToken = fn;
}

let lastSonaRequest: Date | null = null;

sona.interceptors.request.use((config) => {
	const now = new Date();
	if (lastSonaRequest) {
		// Calculate the time difference in milliseconds
		const timeSinceLastRequest = now.getTime() - lastSonaRequest.getTime();

		// If the time difference is less than 5 seconds (5000 ms), reject the request
		// yet another magic number, fml
		if (timeSinceLastRequest < 5000) {
			return Promise.reject({
				message: "Too many requests. Please wait before trying again.",
			});
		}
	}
	lastSonaRequest = now;
	return config;
});

vona.interceptors.request.use((config) => {
	const userToken = getUserToken?.();
	const handshakeToken = getHandshakeToken?.();
	if (userToken) {
		config.headers.Authorization = `Bearer ${userToken}`;
		config.headers["ui-access-key"] = `Bearer ${handshakeToken}`;
	}
	return config;
});
"#;

pub const API_INDEX_LIT: &'static str = r#"
import { handshake } from "./handshake";
import { useUserToken, useHandshakeToken } from "./utils";

export const api = {
	handshake,
	tokens: {
		user: useUserToken,
		handshake: useHandshakeToken,
	},
};
"#;

pub const API_HANDSHAKE_LIT: &'static str = r#"
import axios from "axios";
import { sona, useHandshakeToken } from "~/devano/api/utils";
import { z } from "zod";

const HandshakeResponse = z.object({
	token: z.string(),
});

export async function handshake() {
	try {
		const response = await sona.get("/hs");
		const data = HandshakeResponse.parse(response.data);
		localStorage.setItem("hs", data.token);
    // this is also set `onMount` at the top level
		useHandshakeToken(() => localStorage.getItem("hs"));
	} catch (error) {
		if (axios.isAxiosError(error)) {
			return new Error(
				error.response?.data?.message || "An error occurred during login"
			);
		}
		return new Error("An unexpected error occurred");
	}
}
"#;

/// A file of the new client folder: its display name, its folders below the client folder, its
/// name and what it holds.
pub struct NewDevanoClientFileInstruction {
    pub name: &'static str,
    pub filename: &'static str,
    pub folder_tree: Vec<&'static str>,
    pub contents: &'static str,
}

impl View for NewDevanoClientFileInstruction {
    type V = FileInstructionView;

    open spec fn view(&self) -> FileInstructionView {
        FileInstructionView {
            name: self.name,
            filename: self.filename,
            folder_tree: self.folder_tree@,
            contents: self.contents,
        }
    }
}

/// A command run in the new client folder once its files are written.
pub struct NewDevanoClientBashInstruction {
    pub name: &'static str,
    pub command: &'static str,
    pub args: Vec<&'static str>,
}

impl View for NewDevanoClientBashInstruction {
    type V = BashInstructionView;

    open spec fn view(&self) -> BashInstructionView {
        BashInstructionView { name: self.name, command: self.command, args: self.args@ }
    }
}

/// The files of the new client folder, in the order in which they are written.
pub open spec fn spec_files() -> Seq<FileInstructionView> {
    seq![
        FileInstructionView {
            name: "tsconfig",
            filename: "tsconfig.json",
            folder_tree: seq!["."],
            contents: TSCONFIG_LITERAL,
        },
        FileInstructionView {
            name: "appconfig",
            filename: "app.config.ts",
            folder_tree: seq!["."],
            contents: APP_CONFIG_LITERAL,
        },
        FileInstructionView {
            name: "packageJson",
            filename: "package.json",
            folder_tree: seq!["."],
            contents: PACKAGE_JSON_LITERAL,
        },
        FileInstructionView {
            name: "gitignore",
            filename: ".gitignore",
            folder_tree: seq!["."],
            contents: GITIGNORE_LITERAL,
        },
        FileInstructionView {
            name: "global-types",
            filename: "global.d.ts",
            folder_tree: seq![".", "src"],
            contents: r#"/// <reference types="@solidjs/start/env" />"#,
        },
        FileInstructionView {
            name: "entry-client",
            filename: "entry-client.tsx",
            folder_tree: seq![".", "src"],
            contents: ENTRY_CLIENT_LITERAL,
        },
        FileInstructionView {
            name: "entry-server",
            filename: "entry-server.tsx",
            folder_tree: seq![".", "src"],
            contents: ENTRY_SERVER_LITERAL,
        },
        FileInstructionView {
            name: "app_css",
            filename: "app.css",
            folder_tree: seq![".", "src"],
            contents: r#"@import "tailwindcss";"#,
        },
        FileInstructionView {
            name: "app_tsx",
            filename: "app.tsx",
            folder_tree: seq![".", "src"],
            contents: APP_TSX_LITERAL,
        },
        FileInstructionView {
            name: "env",
            filename: ".env",
            folder_tree: seq!["."],
            contents: ENV_LIT,
        },
        FileInstructionView {
            name: "env-declaration",
            filename: "env.d.ts",
            folder_tree: seq!["."],
            contents: ENV_D_TS_LIT,
        },
        FileInstructionView {
            name: "api/utils",
            filename: "utils.ts",
            folder_tree: seq![".", "src", "devano", "api"],
            contents: API_UTILS_LIT,
        },
        FileInstructionView {
            name: "api/index",
            filename: "index.ts",
            folder_tree: seq![".", "src", "devano", "api"],
            contents: API_INDEX_LIT,
        },
        FileInstructionView {
            name: "api/handshake",
            filename: "index.ts",
            folder_tree: seq![".", "src", "devano", "api", "handshake"],
            contents: API_HANDSHAKE_LIT,
        },
    ]
}

/// The commands run in the new client folder, in order.
pub open spec fn spec_commands() -> Seq<BashInstructionView> {
    seq![
        BashInstructionView { name: "pnpm_install", command: "pnpm", args: seq!["install"] },
    ]
}

/// Returns the files of the new client folder, in the order in which they are written, and the
/// commands then run in it.
pub fn make_files() -> (r: (Vec<NewDevanoClientFileInstruction>, Vec<NewDevanoClientBashInstruction>))
    ensures
        r.0@.map_values(|f: NewDevanoClientFileInstruction| f@) == spec_files(),
        r.1@.map_values(|c: NewDevanoClientBashInstruction| c@) == spec_commands(),
{
    let f0 = NewDevanoClientFileInstruction {
        name: "tsconfig",
        filename: "tsconfig.json",
        folder_tree: vec!["."],
        contents: TSCONFIG_LITERAL,
    };
    proof {
        assert(f0.folder_tree@ =~= seq!["."]);
        assert(f0@ == spec_files()[0]);
    }
    let f1 = NewDevanoClientFileInstruction {
        name: "appconfig",
        filename: "app.config.ts",
        folder_tree: vec!["."],
        contents: APP_CONFIG_LITERAL,
    };
    proof {
        assert(f1.folder_tree@ =~= seq!["."]);
        assert(f1@ == spec_files()[1]);
    }
    let f2 = NewDevanoClientFileInstruction {
        name: "packageJson",
        filename: "package.json",
        folder_tree: vec!["."],
        contents: PACKAGE_JSON_LITERAL,
    };
    proof {
        assert(f2.folder_tree@ =~= seq!["."]);
        assert(f2@ == spec_files()[2]);
    }
    let f3 = NewDevanoClientFileInstruction {
        name: "gitignore",
        filename: ".gitignore",
        folder_tree: vec!["."],
        contents: GITIGNORE_LITERAL,
    };
    proof {
        assert(f3.folder_tree@ =~= seq!["."]);
        assert(f3@ == spec_files()[3]);
    }
    let f4 = NewDevanoClientFileInstruction {
        name: "global-types",
        filename: "global.d.ts",
        folder_tree: vec![".", "src"],
        contents: r#"/// <reference types="@solidjs/start/env" />"#,
    };
    proof {
        assert(f4.folder_tree@ =~= seq![".", "src"]);
        assert(f4@ == spec_files()[4]);
    }
    let f5 = NewDevanoClientFileInstruction {
        name: "entry-client",
        filename: "entry-client.tsx",
        folder_tree: vec![".", "src"],
        contents: ENTRY_CLIENT_LITERAL,
    };
    proof {
        assert(f5.folder_tree@ =~= seq![".", "src"]);
        assert(f5@ == spec_files()[5]);
    }
    let f6 = NewDevanoClientFileInstruction {
        name: "entry-server",
        filename: "entry-server.tsx",
        folder_tree: vec![".", "src"],
        contents: ENTRY_SERVER_LITERAL,
    };
    proof {
        assert(f6.folder_tree@ =~= seq![".", "src"]);
        assert(f6@ == spec_files()[6]);
    }
    let f7 = NewDevanoClientFileInstruction {
        name: "app_css",
        filename: "app.css",
        folder_tree: vec![".", "src"],
        contents: r#"@import "tailwindcss";"#,
    };
    proof {
        assert(f7.folder_tree@ =~= seq![".", "src"]);
        assert(f7@ == spec_files()[7]);
    }
    let f8 = NewDevanoClientFileInstruction {
        name: "app_tsx",
        filename: "app.tsx",
        folder_tree: vec![".", "src"],
        contents: APP_TSX_LITERAL,
    };
    proof {
        assert(f8.folder_tree@ =~= seq![".", "src"]);
        assert(f8@ == spec_files()[8]);
    }
    let f9 = NewDevanoClientFileInstruction {
        name: "env",
        filename: ".env",
        folder_tree: vec!["."],
        contents: ENV_LIT,
    };
    proof {
        assert(f9.folder_tree@ =~= seq!["."]);
        assert(f9@ == spec_files()[9]);
    }
    let f10 = NewDevanoClientFileInstruction {
        name: "env-declaration",
        filename: "env.d.ts",
        folder_tree: vec!["."],
        contents: ENV_D_TS_LIT,
    };
    proof {
        assert(f10.folder_tree@ =~= seq!["."]);
        assert(f10@ == spec_files()[10]);
    }
    let f11 = NewDevanoClientFileInstruction {
        name: "api/utils",
        filename: "utils.ts",
        folder_tree: vec![".", "src", "devano", "api"],
        contents: API_UTILS_LIT,
    };
    proof {
        assert(f11.folder_tree@ =~= seq![".", "src", "devano", "api"]);
        assert(f11@ == spec_files()[11]);
    }
    let f12 = NewDevanoClientFileInstruction {
        name: "api/index",
        filename: "index.ts",
        folder_tree: vec![".", "src", "devano", "api"],
        contents: API_INDEX_LIT,
    };
    proof {
        assert(f12.folder_tree@ =~= seq![".", "src", "devano", "api"]);
        assert(f12@ == spec_files()[12]);
    }
    let f13 = NewDevanoClientFileInstruction {
        name: "api/handshake",
        filename: "index.ts",
        folder_tree: vec![".", "src", "devano", "api", "handshake"],
        contents: API_HANDSHAKE_LIT,
    };
    proof {
        assert(f13.folder_tree@ =~= seq![".", "src", "devano", "api", "handshake"]);
        assert(f13@ == spec_files()[13]);
    }
    let c0 = NewDevanoClientBashInstruction { name: "pnpm_install", command: "pnpm", args: vec!["install"] };
    proof {
        assert(c0.args@ =~= seq!["install"]);
        assert(c0@ == spec_commands()[0]);
    }
    let files = vec![f0, f1, f2, f3, f4, f5, f6, f7, f8, f9, f10, f11, f12, f13];
    let commands = vec![c0];
    proof {
        assert(files@.map_values(|f: NewDevanoClientFileInstruction| f@) =~~= spec_files());
        assert(commands@.map_values(|c: NewDevanoClientBashInstruction| c@) =~~= spec_commands());
    }
    (files, commands)
}

} // verus!
