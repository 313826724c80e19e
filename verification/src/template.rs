//! The fixed text of the document.

use vstd::prelude::*;

verus! {

/// The blank line between two sections.
pub const SECTION_BREAK: &'static str = "\n\n";

/// The end of a line.
pub const LINE_END: &'static str = "\n";

/// The title of the document.
pub const HEADER: &'static str = "# Chat History - Consolidated\n";

/// The metadata as far as the time of writing.
pub const METADATA_HEAD: &'static str = "## Metadata\n- **Created**: ";

/// What stands before the project name.
pub const METADATA_PROJECT: &'static str = "\n- **Project**: ";

/// What stands before the branch.
pub const METADATA_BRANCH: &'static str = "\n- **Branch**: ";

/// What stands before the project path.
pub const METADATA_WORKSPACE: &'static str = "\n- **Workspace**: ";

/// The fixed lines of the metadata, as far as the number of sessions.
pub const METADATA_TOTAL: &'static str =
    "\n- **File Type**: Consolidated Chat History\n\
    - **Purpose**: Knowledge base storage for chat interactions\n\
    - **Total Chat Sessions**: ";

/// What stands behind the number of sessions.
pub const METADATA_TAIL: &'static str = " historical sessions + current session\n";

/// What stands before the operating system.
pub const METADATA_OS: &'static str = "- **OS**: ";

/// What stands before the shell.
pub const METADATA_SHELL: &'static str = "\n- **Shell**: ";

/// What stands for a shell that is not known.
pub const UNKNOWN_SHELL: &'static str = "unknown";

/// The section on the project.
pub const PROJECT_CONTEXT: &'static str =
    "## Project Context\n\
    This is a TypeScript-based MCP (Model Context Protocol) server project that provides local LLM proxy functionality with orchestration capabilities. The project includes:\n\n\
    - MCP server implementation\n\
    - Orchestrator service for tool management\n\
    - RAG (Retrieval Augmented Generation) service\n\
    - Agentic tools and services\n\
    - Sonar integration\n\
    - Web search patterns\n\
    - Validation services\n";

/// The heading of the historical sessions.
pub const SESSIONS_HEAD: &'static str = "## Historical Chat Sessions\n\n";

/// What stands before the ordinal of a session.
pub const ENTRY_HEAD: &'static str = "### Session ";

/// What stands before the name of a session.
pub const ENTRY_NAME: &'static str = ": ";

/// What stands before the date of a session.
pub const ENTRY_DATE: &'static str = "\n**Date**: ";

/// What stands before the identifier of a session.
pub const ENTRY_ID: &'static str = "\n**Session ID**: ";

/// What stands before the context label of a session.
pub const ENTRY_CONTEXT: &'static str = "\n**Context**: ";

/// A word that a session name is searched for.
pub const PATTERN_ORCHESTRATOR: &'static str = "orchestrator";

/// The label of a session whose name holds the word before.
pub const LABEL_ORCHESTRATOR: &'static str =
    "MCP orchestrator analysis and architecture discussion";

/// A word that a session name is searched for.
pub const PATTERN_RAG: &'static str = "RAG";

/// The label of a session whose name holds the word before.
pub const LABEL_RAG: &'static str = "RAG (Retrieval Augmented Generation) task implementation";

/// A word that a session name is searched for.
pub const PATTERN_AGENTIC: &'static str = "agentic";

/// The label of a session whose name holds the word before.
pub const LABEL_AGENTIC: &'static str = "Agentic behavior enhancement and tool integration";

/// A word that a session name is searched for.
pub const PATTERN_MEMORY: &'static str = "memory";

/// The label of a session whose name holds the word before.
pub const LABEL_MEMORY: &'static str = "Memory management and storage implementation";

/// A word that a session name is searched for.
pub const PATTERN_DELEGATE: &'static str = "delegate";

/// The label of a session whose name holds the word before.
pub const LABEL_DELEGATE: &'static str = "Delegation and orchestration analysis";

/// A word that a session name is searched for.
pub const PATTERN_ENHANCE: &'static str = "enhance";

/// The label of a session whose name holds the word before.
pub const LABEL_ENHANCE: &'static str = "Server orchestration enhancements";

/// A word that a session name is searched for.
pub const PATTERN_CLARIFICATION: &'static str = "clarification";

/// The label of a session whose name holds the word before.
pub const LABEL_CLARIFICATION: &'static str = "Action requirements clarification";

/// A word that a session name is searched for.
pub const PATTERN_HISTORY: &'static str = "history";

/// The label of a session whose name holds the word before.
pub const LABEL_HISTORY: &'static str = "Knowledge management and chat history consolidation";

/// The label of a session whose name holds none of the words.
pub const LABEL_GENERAL: &'static str = "General project development and discussion";

/// The current session as far as its date.
pub const CURRENT_HEAD: &'static str =
    "## Current Session\n\n\
    ### Current Knowledge Management Session\n\
    **Date**: ";

/// The current session behind its date.
pub const CURRENT_TAIL: &'static str =
    "\n**Context**: Knowledge management and chat history consolidation request\n\n\
    **Actions Taken**:\n\
    1. **Configuration Loading**: Loaded settings from configuration file\n\
    2. **Database Connection**: Connected to SQLite database\n\
    3. **Data Extraction**: Extracted chat sessions, generations, and prompts\n\
    4. **Markdown Generation**: Generated consolidated markdown with metadata\n\
    5. **File Output**: Created consolidated chat history file\n\n\
    **Technical Details**:\n\
    - Project structure includes TypeScript source files and compiled JavaScript\n\
    - RAG storage system with document indexing\n\
    - Multiple test files for different components\n\
    - Comprehensive MCP server implementation with orchestration capabilities\n";

/// The section on topics and themes.
pub const TOPICS: &'static str =
    "## Key Chat Topics and Themes\n\n\
    ### 1. MCP Server Development\n\
    - TypeScript migration from JavaScript\n\
    - MCP server implementation and configuration\n\
    - Tool development and integration\n\
    - Hot reload and development workflow\n\n\
    ### 2. Orchestration and Delegation\n\
    - Orchestrator service architecture\n\
    - Tool management and delegation system\n\
    - Validation and error handling\n\
    - Context management\n\n\
    ### 3. RAG (Retrieval Augmented Generation)\n\
    - Document indexing and storage\n\
    - Query processing and context retrieval\n\
    - Memory management and persistence\n\
    - Integration with local LLM\n\n\
    ### 4. Agentic Behavior\n\
    - LlamaIndex integration\n\
    - Enhanced AI capabilities\n\
    - Tool orchestration\n\
    - Context-aware responses\n\n\
    ### 5. Development Workflow\n\
    - Git branching and merging\n\
    - Release management\n\
    - Documentation updates\n\
    - Testing and validation\n\n\
    ### 6. Knowledge Management\n\
    - Chat history consolidation\n\
    - Metadata organization\n\
    - Persistent storage\n\
    - Git integration\n";

/// The project structure as far as the project path.
pub const STRUCTURE_HEAD: &'static str = "## Project Structure Reference\n```\n";

/// The project structure below the project path.
pub const STRUCTURE_TAIL: &'static str =
    "/\n\
    ├── src/                    # TypeScript source files\n\
    │   ├── agentic/           # Agentic service implementation\n\
    │   ├── config/            # LLM configuration\n\
    │   ├── mcp/               # MCP server implementation\n\
    │   ├── orchestrator/      # Orchestration services\n\
    │   ├── rag/               # RAG service\n\
    │   ├── services/          # External services (Sonar)\n\
    │   └── tools/             # Agentic tools\n\
    ├── dist/                  # Compiled JavaScript output\n\
    ├── rag-storage/           # RAG document storage\n\
    ├── .knowledge/            # Knowledge base (git-ignored)\n\
    ├── test-*.js              # Various test files\n\
    └── Configuration files    # package.json, tsconfig.json, etc.\n\
    ```\n";

/// The section on key features.
pub const KEY_FEATURES: &'static str =
    "## Key Features Implemented\n\
    1. **MCP Server**: Model Context Protocol server implementation\n\
    2. **Orchestration**: Tool management and delegation system\n\
    3. **RAG Service**: Retrieval Augmented Generation capabilities\n\
    4. **Agentic Tools**: AI-powered tool implementations\n\
    5. **Sonar Integration**: Code analysis and search capabilities\n\
    6. **Validation Service**: Response validation and accuracy checking\n\
    7. **Web Search Patterns**: Structured web search functionality\n\
    8. **Knowledge Management**: Chat history consolidation and storage\n";

/// The git status as far as the branch.
pub const GIT_HEAD: &'static str = "## Git Status\n- **Branch**: ";

/// The git status behind the branch.
pub const GIT_TAIL: &'static str =
    "\n- **Status**: Modified files include rag-storage/metadata.json\n\
    - **New Addition**: .knowledge/ folder added to .gitignore\n";

/// The data sources as far as the store path.
pub const SOURCES_HEAD: &'static str = "## Chat Data Sources\n- **Workspace Storage**: ";

/// The data sources behind the store path.
pub const SOURCES_TAIL: &'static str =
    "\n- **Database**: SQLite state.vscdb containing chat sessions and AI service data\n\
    - **Composer Data**: JSON data containing session metadata and conversation history\n\
    - **AI Service Data**: Prompts and generations stored in workspace-specific database\n";

/// The section of notes.
pub const NOTES: &'static str =
    "## Notes\n\
    - This file serves as a consolidated knowledge base for all chat interactions\n\
    - Metadata includes timestamps, project context, and technical details\n\
    - Future chat sessions should be appended to this file\n\
    - The .knowledge folder is git-ignored to prevent sensitive chat data from being committed\n\
    - Project focuses on MCP server development with advanced orchestration capabilities\n\
    - Historical data extracted from workspace-specific SQLite database\n\
    - All timestamps converted to ISO format for consistency\n";

/// The footer as far as the application name.
pub const FOOTER_HEAD: &'static str = "---\n*This file was automatically generated by ";

/// What stands between the application name and the project name.
pub const FOOTER_PROJECT: &'static str = " and includes all historical chat sessions from the ";

/// The footer behind the project name.
pub const FOOTER_TAIL: &'static str = " project workspace.*\n";

} // verus!
