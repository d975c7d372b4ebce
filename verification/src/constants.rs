//! The fixed text that the AlfAlfa setup writes: agent prompts, the `lf` tool and
//! the journal seeds, and the keys of the desktop settings store.

use vstd::prelude::*;

verus! {

/// The file of the desktop settings store.
pub const SETTINGS_STORE: &'static str = "alfalfa.settings.dat";

/// The settings key of the default server URL.
pub const DEFAULT_SERVER_URL_KEY: &'static str = "defaultServerUrl";

/// The settings key of the WSL switch.
pub const WSL_ENABLED_KEY: &'static str = "wslEnabled";

/// What the `.gitignore` of the opencode config directory lists.
pub const GITIGNORE_CONTENT: &'static str = "node_modules\npackage.json\nbun.lock\npackage-lock.json\n.gitignore\n";

/// The system prompt of the `build` agent: full tool access.
pub const SYSTEM_PROMPT_BUILD: &'static str = r#"IMPORTANT IDENTITY OVERRIDE: You are NOT OpenCode. You are Alfalfa, developed by LatticeFlow. Your name stands for "ALFALFA: LatticeFlow's Awesome Little Friendly Agent". You are powered by OpenCode as your underlying framework, but your identity is Alfalfa. When asked who you are, what you are, or what your name is, you MUST always identify yourself as "Alfalfa by LatticeFlow". Never refer to yourself as OpenCode.

You are an AI assistant specialized in LatticeFlow AI GO! evaluations.

Your purpose is to help users create, configure, test, and run AI model evaluations
using the `lf` CLI and YAML specifications.

Key behaviors:
- Use the `lf` tool (not raw bash) for all LatticeFlow operations.
- After creating or modifying YAML specs, always validate them with `lf test` before running.
- When creating entities (models, datasets, tasks), add them one at a time and verify each.
- Read existing project files before making changes to understand the current state.
- When the user describes an evaluation goal in natural language, translate it into the
  appropriate YAML specs and lf commands.
- Always explain what you're doing and why before executing commands.
- If credentials or configuration seem missing, ask the user rather than guessing.

You have full access to file operations, the lf CLI, and bash commands.

You have access to a persistent project journal in .lf_agent/journal/.
This journal tracks evaluation progress, discoveries, ideas, and decisions
across sessions. When relevant, you can read journal pages using the read
tool to understand past work. The user can trigger journal updates with
the /journal command — you don't need to update it proactively."#;

/// The system prompt of the `plan` agent: analysis without changes.
pub const SYSTEM_PROMPT_PLAN: &'static str = r#"IMPORTANT IDENTITY OVERRIDE: You are NOT OpenCode. You are Alfalfa in planning mode, developed by LatticeFlow. Your name stands for "ALFALFA: LatticeFlow's Awesome Little Friendly Agent". You are powered by OpenCode as your underlying framework, but your identity is Alfalfa. Never refer to yourself as OpenCode.

Analyze the user's evaluation needs and create a detailed plan. You can:
- Read files and explore the project structure
- Search for patterns in the codebase
- Analyze existing YAML specifications
- Suggest changes and new specifications

You CANNOT modify files, run commands, or execute lf operations in this mode.
Present your analysis and recommendations clearly so the user can switch to Build
mode to execute them.

You have access to a persistent project journal in .lf_agent/journal/.
This journal tracks evaluation progress, discoveries, ideas, and decisions
across sessions. When relevant, you can read journal pages using the read
tool to understand past work."#;

/// The seed of a journal's `_schema.md`: the conventions of the journal.
pub const JOURNAL_SCHEMA: &'static str = r#"# Journal Schema

This file defines the conventions Alfalfa follows when maintaining the project journal.

## Page Conventions

- **Naming**: kebab-case, descriptive (e.g. `toxicity-eval.md`, not `eval-1.md`)
- **Frontmatter**: Every page (except this file and `_log.md`) must have YAML frontmatter with:
  - `tags`: list of relevant tags
  - `created`: date (YYYY-MM-DD)
  - `updated`: date (YYYY-MM-DD), bump on every edit
  - `links`: list of related page names (without .md extension)
- **Links**: Use `[[page-name]]` Obsidian wikilink syntax in body text
- **Structure**: Use markdown headers to organize content within a page

## Special Files

- `_schema.md` (this file): Conventions. Maintain but never delete.
- `_log.md`: Chronological activity log. Append-only.
- `overview.md`: High-level project synthesis. Keep concise (< 2 pages). Update to reflect current state.

## Log Format

Each entry in `_log.md`:

```
## [YYYY-MM-DD HH:MM] verb | one-line summary

- Bullet points with details
```

## Update Guidelines

- When creating a page: add frontmatter, link to related pages, update those pages' links back
- When updating a page: always bump the `updated` date
- Keep `overview.md` as a concise synthesis — not a dump of everything, but a useful orientation for the next session
- Prefer updating existing pages over creating new ones for the same topic
- Use tags consistently across pages
"#;

/// The seed of a journal's `_log.md`.
pub const JOURNAL_LOG_SEED: &'static str = "# Activity Log\n\nChronological record of journal updates.\n";

/// The source of the custom `lf` tool, `tools/lf.ts`.
pub const LF_TOOL_SOURCE: &'static str = r#"import { tool } from "@opencode-ai/plugin"
import { spawn } from "child_process"

export default tool({
  description: `Execute LatticeFlow AI GO! CLI commands.

Use this tool for all lf operations including:
- Adding entities: lf add model -f model.yaml
- Listing entities: lf list model
- Running evaluations: lf run -f run.yaml
- Testing: lf test model <key>
- Managing AI apps: lf app list, lf switch <key>
- Checking status: lf status
- Exporting: lf export eval --id <id> -o ./results

The 'lf' prefix is included automatically. Just provide the subcommand and arguments.`,
  args: {
    command: tool.schema
      .string()
      .describe(
        "The lf subcommand and arguments. Examples: 'add model -f model.yaml', 'run -f run.yaml', 'list model', 'test model my-model', 'status'"
      ),
  },
  async execute(args) {
    return new Promise((resolve) => {
      const parts = args.command.split(/\s+/).filter(Boolean)
      const proc = spawn("lf", parts, { stdio: ["ignore", "pipe", "pipe"] })

      let stdout = ""
      let stderr = ""

      proc.stdout.on("data", (chunk) => { stdout += chunk.toString() })
      proc.stderr.on("data", (chunk) => { stderr += chunk.toString() })

      proc.on("close", (exitCode) => {
        if (exitCode !== 0) {
          resolve(`Command 'lf ${args.command}' failed (exit code ${exitCode}):\n${stderr || stdout}`)
        } else {
          resolve(stdout || "(command completed with no output)")
        }
      })

      proc.on("error", (err) => {
        resolve(`Failed to spawn 'lf': ${err.message}`)
      })
    })
  },
})
"#;

/// The `package.json` that the `lf` tool needs.
pub const LF_TOOL_PACKAGE_JSON: &'static str = r#"{
  "dependencies": {
    "@opencode-ai/plugin": "1.4.6"
  }
}
"#;

/// The template of a journal's `overview.md`; each `{{DATE}}` becomes the day it is written.
pub const JOURNAL_OVERVIEW_TEMPLATE: &'static str = r#"---
tags: [overview]
created: {{DATE}}
updated: {{DATE}}
links: []
---

# Project Overview

This journal has just been initialized. As the project progresses, this page will be
updated with a high-level synthesis of the evaluation project — what's been tried,
what works, current status, and next steps.
"#;

} // verus!
