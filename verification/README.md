# minecraft_aws

Control of a Minecraft server that runs on an AWS EC2 instance: start it,
stop it, type commands into its console and read its log, from a small web
front.

- `src/` is the verified library. It holds the records the EC2 lookups read
  (`ec2_types`), the lookups of an instance by id (`aws::virtual_machine::ec2::instance`)
  and by tag (`ec2::instance`), the start/stop protocol of an instance
  (`aws::virtual_machine::ec2::power`), the server's operations as step
  functions (`mc_server::server`), the web front's decisions (`routes`) and
  the text helpers they use (`text`). Each operation that talks to AWS or over
  SSH is a sequence of steps: the library decides, the caller performs the
  action it asks for and reports back what happened.
- `app/` is the program: the Rocket web server, the EC2 and S3 clients, the
  SSH sessions, and the loops that perform the library's actions.
- `tests/` runs the library on concrete values.
