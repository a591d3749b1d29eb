# rnote-ui

The user interface of the Rnote note-taking application, split in two:

- `src/` is a Verus library with the decisions the interface takes, each
  stated in a contract and proved: how pointer and key events reach the
  engine, how a document's file state follows saving and changes on disk,
  the dialogs that guard unsaved changes, the export and PDF import dialogs,
  the color picker, the layout for right- and left-handed use, the sidebar
  flap, autosaving, the progress bar and toasts, the window's actions and
  accelerators, the platform paths and environment, and the labels of
  recovery timestamps and workspace icons.
- `app/` is the GTK program around it: it reads events, settings and the
  platform, hands plain values to the library and applies what it decides.

Modules of the library:

| module        | what it decides                                                 |
|---------------|-----------------------------------------------------------------|
| `input`       | pointer and key events: refusal, pen state, shortcut keys        |
| `canvas`      | the canvas's cursors and its touch gesture                       |
| `document`    | file state of a document: saving, file monitor, open tabs        |
| `closing`     | new-document, clear, close-tab and close-window dialogs          |
| `export`      | export dialogs: file filters, options, target and confirm state  |
| `import`      | the PDF import dialog                                            |
| `colors`      | the color picker and the style sheet of its buttons              |
| `constraints` | the shape constraints of the shaper page                         |
| `layout`      | handedness layout and the sidebar flap                           |
| `styles`      | the string targets of the pen and style actions                  |
| `window`      | opening and loading files, titles, widget flags, paste, accels   |
| `workspace`   | editing the selected workspace                                   |
| `icons`       | workspace icons, their labels, icon picker selection             |
| `autosave`    | the autosave timer                                               |
| `feedback`    | progress bar and toasts                                          |
| `env`         | platform directories and environment variables                   |
| `timestamp`   | labels of recovery file timestamps                               |
| `text`        | string comparison and decimal numbers                            |
