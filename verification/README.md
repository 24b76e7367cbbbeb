# epifetch

A command-line client for the Epitech intranet and the Blih repository
service: it shows the profile, projects, activities, marks, modules and
repositories of a student, creates repositories and sets their rights.

- `src/` is the verified library:
  - `text`: decimal numbers (and their parsing), hexadecimal bytes, JSON string literals;
  - `signing`: the stored password hash and the HMAC-SHA-512 request signature;
  - `table`: table styles and rendering;
  - `data`: the intranet's records and the cells and text of every table;
  - `blih`: URLs, request bodies and what the client does with the service's answers;
  - `cli`: the commands and their actions, the login data file.
- `app/` holds the program: argument parsing, HTTP, the terminal and the
  configuration file, and the JSON shapes of the two services.
- `tests/` runs the library on concrete values.
